//! What is counted. Each recorder says which series change, and by how much.

use vstd::prelude::*;

use crate::models::{Subscription, SubscriptionStatus};
use crate::service::expiry::ExpiryTickReport;
use crate::table::{Entry, Table};
use crate::webhook::{PruneReport, StatusCounts};

verus! {

/// How a series changes.
#[derive(Debug, Clone, Copy, PartialEq, Eq, Structural)]
pub enum MetricChange {
    /// A counter grows.
    Add(u64),
    /// A gauge is set.
    Level(i64),
}

/// A change of one series.
#[derive(Debug)]
pub struct MetricUpdate {
    pub series: &'static str,
    pub labels: Vec<String>,
    pub change: MetricChange,
}

/// The model of a change: the series, its labels, and how it changes.
pub struct UpdateView {
    pub series: Seq<char>,
    pub labels: Seq<Seq<char>>,
    pub change: MetricChange,
}

impl View for MetricUpdate {
    type V = UpdateView;

    open spec fn view(&self) -> UpdateView {
        UpdateView {
            series: self.series@,
            labels: self.labels@.map_values(|s: String| s@),
            change: self.change,
        }
    }
}

/// The models of several changes.
pub open spec fn update_views(s: Seq<MetricUpdate>) -> Seq<UpdateView> {
    s.map_values(|u: MetricUpdate| u@)
}

/// A counter without labels that grows by `n`.
pub open spec fn plain_add(series: Seq<char>, n: u64) -> UpdateView {
    UpdateView { series, labels: Seq::empty(), change: MetricChange::Add(n) }
}

/// A counter with one label that grows by `n`.
pub open spec fn labeled_add(series: Seq<char>, label: Seq<char>, n: u64) -> UpdateView {
    UpdateView { series, labels: Seq::empty().push(label), change: MetricChange::Add(n) }
}

/// A gauge with one label that is set to `n`.
pub open spec fn labeled_set(series: Seq<char>, label: Seq<char>, n: i64) -> UpdateView {
    UpdateView { series, labels: Seq::empty().push(label), change: MetricChange::Level(n) }
}

fn plain(series: &'static str, n: u64) -> (r: MetricUpdate)
    ensures
        r@ == plain_add(series@, n),
{
    let r = MetricUpdate { series, labels: Vec::new(), change: MetricChange::Add(n) };
    assert(r@.labels =~= Seq::<Seq<char>>::empty());
    r
}

fn labeled(series: &'static str, label: &str, change: MetricChange) -> (r: MetricUpdate)
    ensures
        r@ == (UpdateView { series: series@, labels: Seq::empty().push(label@), change }),
{
    let mut labels: Vec<String> = Vec::new();
    labels.push(String::from_str(label));
    let r = MetricUpdate { series, labels, change };
    assert(r@.labels =~= Seq::<Seq<char>>::empty().push(label@));
    r
}

fn level(n: usize) -> (r: MetricChange)
    ensures
        r == MetricChange::Level(n as i64),
{
    MetricChange::Level(
        #[verifier::truncate]
        (n as i64),
    )
}

fn put(s: Vec<MetricUpdate>, u: MetricUpdate) -> (r: Vec<MetricUpdate>)
    ensures
        update_views(r@) == update_views(s@).push(u@),
{
    let mut r = s;
    r.push(u);
    assert(update_views(r@) =~= update_views(s@).push(u@));
    r
}

fn none() -> (r: Vec<MetricUpdate>)
    ensures
        update_views(r@) == Seq::<UpdateView>::empty(),
{
    let r: Vec<MetricUpdate> = Vec::new();
    assert(update_views(r@) =~= Seq::<UpdateView>::empty());
    r
}

/// An intent was processed.
pub fn record_intent(intent: &str, outcome: &str) -> (r: Vec<MetricUpdate>)
    ensures
        update_views(r@) == Seq::empty().push(
            UpdateView {
                series: "icp_intents_total"@,
                labels: Seq::empty().push(intent@).push(outcome@),
                change: MetricChange::Add(1),
            },
        ),
{
    let mut labels: Vec<String> = Vec::new();
    labels.push(String::from_str(intent));
    labels.push(String::from_str(outcome));
    let u = MetricUpdate { series: "icp_intents_total", labels, change: MetricChange::Add(1) };
    assert(u@.labels =~= Seq::<Seq<char>>::empty().push(intent@).push(outcome@));
    put(none(), u)
}

/// A webhook delivery came to an outcome.
pub fn record_webhook_delivery(outcome: &str) -> (r: Vec<MetricUpdate>)
    ensures
        update_views(r@) == Seq::empty().push(
            labeled_add("icp_webhook_deliveries_total"@, outcome@, 1),
        ),
{
    put(none(), labeled("icp_webhook_deliveries_total", outcome, MetricChange::Add(1)))
}

/// The webhook worker ticked; the outbox now holds these deliveries.
pub fn record_webhook_tick(counts: &StatusCounts) -> (r: Vec<MetricUpdate>)
    ensures
        ({
            let depth = "icp_webhook_outbox_queue_depth"@;
            update_views(r@) == Seq::empty().push(
                plain_add("icp_webhook_worker_ticks_total"@, 1),
            ).push(labeled_set(depth, "pending"@, counts.pending as i64)).push(
                labeled_set(depth, "in_flight"@, counts.in_flight as i64),
            ).push(labeled_set(depth, "delivered"@, counts.delivered as i64)).push(
                labeled_set(depth, "failed"@, counts.failed as i64),
            ).push(labeled_set(depth, "dead_lettered"@, counts.dead_lettered as i64))
        }),
{
    let depth: &'static str = "icp_webhook_outbox_queue_depth";
    let s = put(none(), plain("icp_webhook_worker_ticks_total", 1));
    let s = put(s, labeled(depth, "pending", level(counts.pending)));
    let s = put(s, labeled(depth, "in_flight", level(counts.in_flight)));
    let s = put(s, labeled(depth, "delivered", level(counts.delivered)));
    let s = put(s, labeled(depth, "failed", level(counts.failed)));
    put(
        s,
        labeled(depth, "dead_lettered", level(counts.dead_lettered)),
    )
}

/// The changes, and one more when something was counted.
pub open spec fn with_count(s: Seq<UpdateView>, u: UpdateView, n: usize) -> Seq<UpdateView> {
    if n > 0 {
        s.push(u)
    } else {
        s
    }
}

/// The idempotency cache was swept, and this many rows were taken out.
pub fn record_idempotency_sweep(pruned: usize) -> (r: Vec<MetricUpdate>)
    ensures
        update_views(r@) == with_count(
            Seq::empty().push(plain_add("icp_idempotency_sweeper_ticks_total"@, 1)),
            plain_add("icp_idempotency_pruned_total"@, pruned as u64),
            pruned,
        ),
{
    let s = put(none(), plain("icp_idempotency_sweeper_ticks_total", 1));
    if pruned > 0 {
        put(s, plain("icp_idempotency_pruned_total", pruned as u64))
    } else {
        s
    }
}

/// Quotes were swept.
pub fn record_expiry_tick(report: &ExpiryTickReport) -> (r: Vec<MetricUpdate>)
    ensures
        update_views(r@) == with_count(
            with_count(
                Seq::empty().push(plain_add("icp_expiry_sweeper_ticks_total"@, 1)),
                labeled_add(
                    "icp_expiries_total"@,
                    "transaction"@,
                    report.transactions_expired as u64,
                ),
                report.transactions_expired,
            ),
            labeled_add("icp_expiries_total"@, "peer_quote"@, report.peer_quotes_expired as u64),
            report.peer_quotes_expired,
        ),
{
    let mut s = put(none(), plain("icp_expiry_sweeper_ticks_total", 1));
    if report.transactions_expired > 0 {
        s = put(
            s,
            labeled(
                "icp_expiries_total",
                "transaction",
                MetricChange::Add(report.transactions_expired as u64),
            ),
        );
    }
    if report.peer_quotes_expired > 0 {
        s = put(
            s,
            labeled(
                "icp_expiries_total",
                "peer_quote",
                MetricChange::Add(report.peer_quotes_expired as u64),
            ),
        );
    }
    s
}

/// Old webhook deliveries were taken out.
pub fn record_webhook_prune(report: &PruneReport) -> (r: Vec<MetricUpdate>)
    ensures
        update_views(r@) == with_count(
            with_count(
                Seq::empty(),
                labeled_add(
                    "icp_webhook_outbox_pruned_total"@,
                    "delivered"@,
                    report.delivered_pruned as u64,
                ),
                report.delivered_pruned,
            ),
            labeled_add(
                "icp_webhook_outbox_pruned_total"@,
                "dead_lettered"@,
                report.dead_lettered_pruned as u64,
            ),
            report.dead_lettered_pruned,
        ),
{
    let mut s = none();
    if report.delivered_pruned > 0 {
        s = put(
            s,
            labeled(
                "icp_webhook_outbox_pruned_total",
                "delivered",
                MetricChange::Add(report.delivered_pruned as u64),
            ),
        );
    }
    if report.dead_lettered_pruned > 0 {
        s = put(
            s,
            labeled(
                "icp_webhook_outbox_pruned_total",
                "dead_lettered",
                MetricChange::Add(report.dead_lettered_pruned as u64),
            ),
        );
    }
    s
}

/// A renewal came to an outcome.
pub fn record_subscription_renewal(outcome: &str) -> (r: Vec<MetricUpdate>)
    ensures
        update_views(r@) == Seq::empty().push(
            labeled_add("icp_subscription_renewals_total"@, outcome@, 1),
        ),
{
    put(none(), labeled("icp_subscription_renewals_total", outcome, MetricChange::Add(1)))
}

// ---------------------------------------------------------------------------
// Subscriptions by status
// ---------------------------------------------------------------------------

/// Subscriptions by where they stand.
#[derive(Debug, Clone, Copy, PartialEq, Eq, Structural)]
pub struct SubscriptionStatusCounts {
    pub trialing: usize,
    pub active: usize,
    pub paused: usize,
    pub canceled: usize,
    pub past_due: usize,
}

/// How many of the first `n` subscriptions stand there.
pub open spec fn count_in(s: Seq<Entry<Subscription>>, status: SubscriptionStatus, n: int) -> int
    decreases n,
{
    if n <= 0 {
        0
    } else {
        count_in(s, status, n - 1) + if s[n - 1].value.status == status {
            1int
        } else {
            0int
        }
    }
}

/// The subscriptions by where they stand.
pub fn subscription_counts(m: &Table<Subscription>) -> (r: SubscriptionStatusCounts)
    ensures
        ({
            let n = m.seq().len() as int;
            &&& r.trialing == count_in(m.seq(), SubscriptionStatus::Trialing, n)
            &&& r.active == count_in(m.seq(), SubscriptionStatus::Active, n)
            &&& r.paused == count_in(m.seq(), SubscriptionStatus::Paused, n)
            &&& r.canceled == count_in(m.seq(), SubscriptionStatus::Canceled, n)
            &&& r.past_due == count_in(m.seq(), SubscriptionStatus::PastDue, n)
            &&& r.trialing + r.active + r.paused + r.canceled + r.past_due == m@.dom().len()
        }),
{
    let mut c = SubscriptionStatusCounts {
        trialing: 0,
        active: 0,
        paused: 0,
        canceled: 0,
        past_due: 0,
    };
    let n: usize = m.len();
    let mut i: usize = 0;
    while i < n
        invariant
            i <= n == m.seq().len(),
            c.trialing == count_in(m.seq(), SubscriptionStatus::Trialing, i as int),
            c.active == count_in(m.seq(), SubscriptionStatus::Active, i as int),
            c.paused == count_in(m.seq(), SubscriptionStatus::Paused, i as int),
            c.canceled == count_in(m.seq(), SubscriptionStatus::Canceled, i as int),
            c.past_due == count_in(m.seq(), SubscriptionStatus::PastDue, i as int),
            c.trialing + c.active + c.paused + c.canceled + c.past_due == i,
        decreases n - i,
    {
        match m.entry_at(i).value.status {
            SubscriptionStatus::Trialing => {
                c.trialing = c.trialing + 1;
            },
            SubscriptionStatus::Active => {
                c.active = c.active + 1;
            },
            SubscriptionStatus::Paused => {
                c.paused = c.paused + 1;
            },
            SubscriptionStatus::Canceled => {
                c.canceled = c.canceled + 1;
            },
            SubscriptionStatus::PastDue => {
                c.past_due = c.past_due + 1;
            },
        }
        i += 1;
    }
    c
}

/// The scheduler ticked; the subscriptions now stand like this.
pub fn record_subscription_scheduler_tick(counts: &SubscriptionStatusCounts) -> (r: Vec<
    MetricUpdate,
>)
    ensures
        ({
            let by_status = "icp_subscriptions_by_status"@;
            update_views(r@) == Seq::empty().push(
                plain_add("icp_subscription_scheduler_ticks_total"@, 1),
            ).push(labeled_set(by_status, "trialing"@, counts.trialing as i64)).push(
                labeled_set(by_status, "active"@, counts.active as i64),
            ).push(labeled_set(by_status, "paused"@, counts.paused as i64)).push(
                labeled_set(by_status, "canceled"@, counts.canceled as i64),
            ).push(labeled_set(by_status, "past_due"@, counts.past_due as i64))
        }),
{
    let by_status: &'static str = "icp_subscriptions_by_status";
    let s = put(none(), plain("icp_subscription_scheduler_ticks_total", 1));
    let s = put(s, labeled(by_status, "trialing", level(counts.trialing)));
    let s = put(s, labeled(by_status, "active", level(counts.active)));
    let s = put(s, labeled(by_status, "paused", level(counts.paused)));
    let s = put(s, labeled(by_status, "canceled", level(counts.canceled)));
    put(s, labeled(by_status, "past_due", level(counts.past_due)))
}

// ---------------------------------------------------------------------------
// Laws
// ---------------------------------------------------------------------------

/// A counter that did not move is not told.
pub proof fn law_only_what_moved_is_counted(s: Seq<UpdateView>, u: UpdateView, n: usize)
    ensures
        n == 0 ==> with_count(s, u, n) == s,
        n > 0 ==> with_count(s, u, n) == s.push(u),
{
}

/// The subscriptions of a status are counted one by one.
pub proof fn law_subscriptions_are_counted_by_status(
    s: Seq<Entry<Subscription>>,
    status: SubscriptionStatus,
    n: int,
)
    requires
        0 <= n < s.len(),
    ensures
        count_in(s, status, 0) == 0,
        count_in(s, status, n + 1) == count_in(s, status, n) + (if s[n].value.status == status {
            1int
        } else {
            0int
        }),
{
}

/// An update is for its series, with its label, by as much.
pub proof fn law_updates_say_their_series(series: Seq<char>, label: Seq<char>, n: u64, level: i64)
    ensures
        plain_add(series, n).series == series && plain_add(series, n).labels.len() == 0
            && plain_add(series, n).change == MetricChange::Add(n),
        labeled_add(series, label, n).series == series && labeled_add(series, label, n).labels
            == seq![label] && labeled_add(series, label, n).change == MetricChange::Add(n),
        labeled_set(series, label, level).series == series && labeled_set(
            series,
            label,
            level,
        ).labels == seq![label] && labeled_set(series, label, level).change == MetricChange::Level(
            level,
        ),
{
    assert(Seq::empty().push(label) =~= seq![label]);
}

} // verus!
