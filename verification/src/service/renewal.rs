//! Automatic renewals.
//!
//! A tick of the scheduler first plans a charge for every subscription that is
//! due. The engine persists the orders, and the second half of the tick settles
//! each attempt: the period moves on, or the failure counts toward `past_due`.

use vstd::prelude::*;
use vstd::set_lib::lemma_len_subset;

use crate::agent::{AgentIdentifier, ApiKeyInfo};
use crate::crypto::{fresh_id, is_fresh_id};
use crate::errors::{ApiError, ErrorView};
use crate::events::Event;
use crate::intent::Intent;
use crate::json::{lemma_member_found, Json, JsonView, ObjectBuilder};
use crate::models::{
    IntentContext, IntentEnvelope, PaymentInstrument, Subscription, SubscriptionStatus, Transaction,
};
use crate::pricing::{
    basket_error, law_baskets_need_sound_positions, period_advance, period_can_start, period_end, period_is_representable,
    priced_basket,
};
use crate::service::expiry::{
    opt_int_view, shown_total, time_view, total_amount, total_currency, TenantEvent,
};
use crate::service::helpers::{engine_error, EngineReply};
use crate::service::subscriptions::{
    begin_subscription_charge, count_one_more, one_more, with_order,
};
use crate::service::{IcpService, IntentInput};
use crate::table::{lemma_picked, picked, Table};
use crate::text::{str_eq, string_views};
use crate::time::{representable, rfc3339, rfc3339_text, Span, Timestamp};

verus! {

impl IcpService {
    /// Consecutive failures after which a subscription is past due when there is
    /// no schedule of retries.
    pub const MAX_RENEWAL_FAILURES: u32 = 3;
}

/// What one tick did.
#[derive(Debug, Clone, Copy, PartialEq, Eq, Structural)]
pub struct SchedulerTickReport {
    /// Subscriptions, whatever their status.
    pub scanned: usize,
    /// Those that were due.
    pub due: usize,
    /// Those that were renewed.
    pub renewed: usize,
    /// Those whose charge failed.
    pub failed: usize,
    /// Those that became past due.
    pub past_due: usize,
}

// ---------------------------------------------------------------------------
// The schedule of retries
// ---------------------------------------------------------------------------

/// The failure with which a subscription becomes past due: one after the last
/// retry of the schedule.
pub open spec fn max_attempts(retries: nat) -> int {
    if retries == 0 {
        IcpService::MAX_RENEWAL_FAILURES as int
    } else if retries >= u32::MAX {
        u32::MAX as int
    } else {
        retries as int + 1
    }
}

/// When the next attempt is made after the given number of failures, if the
/// schedule still has a retry.
pub open spec fn next_attempt(schedule: Seq<u32>, failures: int, now: int) -> Option<int> {
    if 1 <= failures <= schedule.len() {
        Some(now + schedule[failures - 1] * 3_600_000_000_000)
    } else {
        None
    }
}

/// Whether every retry of the schedule lies on the calendar.
pub open spec fn schedule_fits(schedule: Seq<u32>, now: int) -> bool {
    forall|i: int|
        0 <= i < schedule.len() ==> representable(now + #[trigger] schedule[i] * 3_600_000_000_000)
}

/// The failure with which a subscription becomes past due.
pub fn dunning_max_attempts(schedule: &Vec<u32>) -> (r: u32)
    ensures
        r == max_attempts(schedule@.len()),
{
    let n: usize = schedule.len();
    if n == 0 {
        IcpService::MAX_RENEWAL_FAILURES
    } else if n >= u32::MAX as usize {
        u32::MAX
    } else {
        n as u32 + 1
    }
}

/// When the next attempt is made after the given number of failures, if the
/// schedule still has a retry.
pub fn dunning_next_attempt(schedule: &Vec<u32>, failure_count: u32, now: Timestamp) -> (r: Option<
    Timestamp,
>)
    requires
        next_attempt(schedule@, failure_count as int, now@) matches Some(t) ==> representable(t),
    ensures
        match r {
            Some(t) => next_attempt(schedule@, failure_count as int, now@) == Some(t@),
            None => next_attempt(schedule@, failure_count as int, now@) is None,
        },
{
    if failure_count == 0 {
        return None;
    }
    let idx: usize = (failure_count - 1) as usize;
    if idx >= schedule.len() {
        return None;
    }
    let hours: u32 = schedule[idx];
    assert(representable(now@ + schedule@[idx as int] * 3_600_000_000_000));
    Some(now.plus(Span::hours(hours as i64)))
}

// ---------------------------------------------------------------------------
// Planning
// ---------------------------------------------------------------------------

/// Whether a subscription is to be charged: it is running, its date has come,
/// and there is something to charge.
pub open spec fn due_for_renewal(s: Subscription, now: int) -> bool {
    &&& s.status is Active || s.status is Trialing
    &&& s.next_charge_at@ <= now
    &&& s.payment_instrument is Some
}

/// The subscriptions that a tick at `now` charges.
pub open spec fn subscriptions_due(now: int) -> spec_fn(Subscription) -> bool {
    |s: Subscription| due_for_renewal(s, now)
}

/// The ids of the subscriptions that are due, in the order in which they are
/// kept.
pub open spec fn due_subscriptions(m: Table<Subscription>, now: int) -> Seq<Seq<char>> {
    picked(m.seq(), subscriptions_due(now), m.seq().len() as int)
}

/// The ids of the subscriptions that are due.
pub fn list_due_for_renewal(m: &Table<Subscription>, now: Timestamp) -> (r: Vec<String>)
    ensures
        string_views(r@) == due_subscriptions(*m, now@),
        string_views(r@).no_duplicates(),
        forall|k: Seq<char>| #[trigger]
            string_views(r@).contains(k) <==> m@.contains_key(k) && due_for_renewal(m@[k], now@),
{
    let n: usize = m.len();
    let mut out: Vec<String> = Vec::new();
    let mut i: usize = 0;
    assert(string_views(out@) =~= Seq::<Seq<char>>::empty());
    while i < n
        invariant
            i <= n == m.seq().len(),
            string_views(out@) == picked(m.seq(), subscriptions_due(now@), i as int),
        decreases n - i,
    {
        let e = m.entry_at(i);
        let running = e.value.status == SubscriptionStatus::Active || e.value.status
            == SubscriptionStatus::Trialing;
        if running && e.value.next_charge_at.at_or_before(&now)
            && e.value.payment_instrument.is_some() {
            let ghost before = out@;
            out.push(e.key.clone());
            assert(string_views(out@) =~= string_views(before).push(e.key@));
        }
        i += 1;
    }
    proof {
        lemma_picked(m.seq(), subscriptions_due(now@));
    }
    out
}

/// Why a subscription cannot be charged automatically. Payment to a peer needs
/// consent each time.
pub open spec fn scheduler_error(s: Subscription) -> Option<ErrorView> {
    if s.payment_instrument matches Some(p) && p is A2A {
        Some(ErrorView::PreconditionFailed("A2A payment instruments cannot be auto-renewed"@))
    } else {
        basket_error(s.items@, "subscription.items"@, 0)
    }
}

/// Whether this is the charge of an automatic renewal, before the engine has
/// replied.
pub open spec fn automatic_charge(t: Transaction, s: Subscription, now: Timestamp) -> bool {
    &&& is_fresh_id(t.id@, "txn_"@)
    &&& t.state is Completed
    &&& t.agent_id@ == s.agent_id@
    &&& t.tenant_id == s.tenant_id
    &&& t.mandate_jti == s.mandate_jti
    &&& t.currency@ == s.currency@
    &&& t.jurisdiction is None
    &&& t.buyer == s.buyer
    &&& t.ship_to == s.ship_to
    &&& t.bill_to is None
    &&& priced_basket(t.line_items@, t.totals, s.items@, s.currency@)
    &&& t.order_id is None
    &&& t.quote_expires_at is None
    &&& t.created_at == now
    &&& t.updated_at == now
    &&& t.external_refs@ == Map::<Seq<char>, String>::empty()
}

/// The charge of an automatic renewal. The subscription itself is the standing
/// authorization for it.
pub fn scheduler_charge(sub: &Subscription, now: Timestamp) -> (r: Result<Transaction, ApiError>)
    ensures
        match r {
            Ok(t) => scheduler_error(*sub) is None && automatic_charge(t, *sub, now),
            Err(e) => scheduler_error(*sub) == Some(e@),
        },
{
    match &sub.payment_instrument {
        Some(PaymentInstrument::A2A { .. }) => {
            return Err(
                ApiError::PreconditionFailed(
                    String::from_str("A2A payment instruments cannot be auto-renewed"),
                ),
            );
        },
        _ => {},
    }
    let envelope = IntentEnvelope {
        intent: String::from_str(Intent::Renew.wire_name()),
        intent_id: None,
        transaction_id: None,
        agent_id: sub.agent_id.clone(),
        mandate_jti: sub.mandate_jti.clone(),
        params: Json::Null,
        context: IntentContext::default(),
    };
    let agent = AgentIdentifier::parse(sub.agent_id.as_str());
    let tenant = ApiKeyInfo {
        key: String::new(),
        tenant_id: sub.tenant_id.clone(),
        name: String::from_str("subscription-scheduler"),
        rate_limit_per_minute: None,
        allowed_agents: None,
        expires_at: None,
    };
    let input = IntentInput::for_compat(envelope, agent, tenant, fresh_id("req_"), None);
    begin_subscription_charge(
        &input,
        &sub.buyer,
        sub.ship_to.clone(),
        &sub.items,
        sub.currency.as_str(),
        now,
        fresh_id("txn_"),
    )
}

/// A charge that is due, or why there can be none.
#[derive(Debug)]
pub struct DueCharge {
    pub subscription_id: String,
    pub charge: Result<Transaction, ApiError>,
}

/// Whether this is the planned charge of a subscription.
pub open spec fn planned(d: DueCharge, s: Subscription, now: Timestamp) -> bool {
    match d.charge {
        Ok(t) => scheduler_error(s) is None && automatic_charge(t, s, now),
        Err(e) => scheduler_error(s) == Some(e@),
    }
}

/// Whether these are the planned charges of the subscriptions that are due: of each
/// one, and of no other.
pub open spec fn plans_due(plan: Seq<DueCharge>, service: IcpService, now: Timestamp) -> bool {
    let m = service.subscriptions@;
    let keys = due_subscriptions(service.subscriptions, now@);
    &&& plan.len() == keys.len()
    &&& keys.no_duplicates()
    &&& forall|k: Seq<char>| #[trigger]
        keys.contains(k) <==> m.contains_key(k) && due_for_renewal(m[k], now@)
    &&& forall|i: int|
        0 <= i < keys.len() ==> {
            &&& (#[trigger] plan[i]).subscription_id@ == keys[i]
            &&& m.contains_key(keys[i])
            &&& due_for_renewal(m[keys[i]], now@)
            &&& planned(plan[i], m[keys[i]], now)
        }
}

impl IcpService {
    /// First half of a tick: the charges that are due at `now`. Those that could
    /// be planned are to be persisted with the engine.
    pub fn plan_renewals(&self, now: Timestamp) -> (r: Vec<DueCharge>)
        ensures
            plans_due(r@, *self, now),
    {
        let due = list_due_for_renewal(&self.subscriptions, now);
        let ghost keys = string_views(due@);
        let mut out: Vec<DueCharge> = Vec::new();
        let mut i: usize = 0;
        while i < due.len()
            invariant
                i <= due@.len() == keys.len(),
                keys == string_views(due@),
                forall|k: Seq<char>| #[trigger]
                    keys.contains(k) <==> self.subscriptions@.contains_key(k) && due_for_renewal(
                        self.subscriptions@[k],
                        now@,
                    ),
                out@.len() == i,
                forall|j: int|
                    0 <= j < i ==> {
                        &&& (#[trigger] out@[j]).subscription_id@ == keys[j]
                        &&& self.subscriptions@.contains_key(keys[j])
                        &&& due_for_renewal(self.subscriptions@[keys[j]], now@)
                        &&& planned(out@[j], self.subscriptions@[keys[j]], now)
                    },
            decreases due@.len() - i,
        {
            assert(keys[i as int] == due@[i as int]@);
            assert(keys.contains(keys[i as int]));
            match self.subscriptions.get(due[i].as_str()) {
                Some(sub) => {
                    out.push(
                        DueCharge {
                            subscription_id: due[i].clone(),
                            charge: scheduler_charge(sub, now),
                        },
                    );
                },
                None => {},
            }
            i += 1;
        }
        out
    }
}

// ---------------------------------------------------------------------------
// Settling one attempt
// ---------------------------------------------------------------------------

/// An attempt to renew: the charge with the reply of the engine, or why there
/// was none.
#[derive(Debug)]
pub struct RenewalAttempt {
    pub subscription_id: String,
    pub charge: Result<(Transaction, EngineReply), ApiError>,
}

/// Why an attempt failed.
pub open spec fn attempt_error(a: RenewalAttempt, production: bool) -> Option<ErrorView> {
    match a.charge {
        Ok((_, reply)) => engine_error(reply, production),
        Err(e) => Some(e@),
    }
}

/// The id of the order that the engine persisted.
pub open spec fn reply_order_id(reply: EngineReply) -> Option<String> {
    match reply {
        EngineReply::Persisted(o) => Some(o.id),
        _ => None,
    }
}

/// Whether `s` is the subscription after an automatic renewal: the new period
/// starts where the old one ended, and a trial is over.
pub open spec fn auto_renewed(
    before: Subscription,
    s: Subscription,
    charge_id: String,
    now: Timestamp,
) -> bool {
    &&& s == (Subscription {
        current_period_start: before.current_period_end,
        current_period_end: s.current_period_end,
        next_charge_at: s.current_period_end,
        charges_completed: one_more(before.charges_completed),
        last_transaction_id: Some(charge_id),
        failed_renewal_attempts: 0,
        status: if before.status is Trialing {
            SubscriptionStatus::Active
        } else {
            before.status
        },
        trial_end: if before.status is Trialing {
            None
        } else {
            before.trial_end
        },
        updated_at: now,
        ..before
    })
    &&& s.current_period_end@ == period_end(before.current_period_end@, before.cadence)
}

/// Whether one more failure makes a subscription past due.
pub open spec fn turns_past_due(before: Subscription, schedule: Seq<u32>) -> bool {
    one_more(before.failed_renewal_attempts) >= max_attempts(schedule.len())
}

/// Whether `s` is the subscription after a failed attempt: past due, or waiting
/// for the next retry of the schedule.
pub open spec fn failed_once(
    before: Subscription,
    s: Subscription,
    schedule: Seq<u32>,
    now: Timestamp,
) -> bool {
    let failures = one_more(before.failed_renewal_attempts);
    &&& s == (Subscription {
        failed_renewal_attempts: failures,
        status: if turns_past_due(before, schedule) {
            SubscriptionStatus::PastDue
        } else {
            before.status
        },
        next_charge_at: s.next_charge_at,
        updated_at: now,
        ..before
    })
    &&& s.next_charge_at@ == (match next_attempt(schedule, failures as int, now@) {
        Some(t) => if turns_past_due(before, schedule) {
            before.next_charge_at@
        } else {
            t
        },
        None => before.next_charge_at@,
    })
}

/// Whether `s` is the subscription after the attempt.
pub open spec fn settled(
    before: Subscription,
    s: Subscription,
    a: RenewalAttempt,
    production: bool,
    schedule: Seq<u32>,
    now: Timestamp,
) -> bool {
    if attempt_error(a, production) is None {
        auto_renewed(before, s, a.charge->Ok_0.0.id, now)
    } else {
        failed_once(before, s, schedule, now)
    }
}

/// The transactions after the attempt: a charge that succeeded is kept, with its
/// order.
pub open spec fn with_charge(
    m: Map<Seq<char>, Transaction>,
    a: RenewalAttempt,
    production: bool,
) -> Map<Seq<char>, Transaction> {
    if attempt_error(a, production) is None {
        let (t, reply) = a.charge->Ok_0;
        m.insert(t.id@, with_order(t, reply_order_id(reply)))
    } else {
        m
    }
}

/// The payload of the event for a renewal.
pub open spec fn renewed_payload(before: Subscription, t: Transaction) -> JsonView {
    let end = period_end(before.current_period_end@, before.cadence);
    JsonView::Object(
        Seq::empty().push(("subscription_id"@, JsonView::Str(before.id@))).push(
            ("automatic"@, JsonView::Bool(true)),
        ).push(("transaction_id"@, JsonView::Str(t.id@))).push(
            ("cycle_number"@, JsonView::Int(one_more(before.charges_completed) as int)),
        ).push(("current_period_start"@, time_view(before.current_period_end@))).push(
            ("current_period_end"@, time_view(end)),
        ).push(("next_charge_at"@, time_view(end))).push(
            ("amount_minor"@, opt_int_view(total_amount(t))),
        ).push(("currency"@, JsonView::Str(total_currency(t)))),
    )
}

/// The payload of the event for a subscription that became past due.
pub open spec fn past_due_payload(before: Subscription, error: Seq<char>, now: int) -> JsonView {
    let failures = one_more(before.failed_renewal_attempts) as int;
    JsonView::Object(
        Seq::empty().push(("subscription_id"@, JsonView::Str(before.id@))).push(
            ("consecutive_failures"@, JsonView::Int(failures)),
        ).push(("attempts_made"@, JsonView::Int(failures))).push(
            ("last_error"@, JsonView::Str(error)),
        ).push(("last_attempt_at"@, time_view(now))).push(
            ("next_action"@, JsonView::Str("manual_renewal_required"@)),
        ),
    )
}

/// Whether an attempt leads to an event: every renewal does, and every failure
/// that makes the subscription past due.
pub open spec fn has_event(
    a: RenewalAttempt,
    before: Subscription,
    production: bool,
    schedule: Seq<u32>,
) -> bool {
    attempt_error(a, production) is None || turns_past_due(before, schedule)
}

/// Whether this is the event of the attempt.
pub open spec fn tells_attempt(
    e: TenantEvent,
    a: RenewalAttempt,
    before: Subscription,
    production: bool,
    now: Timestamp,
) -> bool {
    &&& is_fresh_id(e.event.id@, "evt_"@)
    &&& e.event.agent_id == Some(before.agent_id)
    &&& e.event.occurred_at == now
    &&& e.tenant_id == before.tenant_id
    &&& match attempt_error(a, production) {
        None => {
            let (t, reply) = a.charge->Ok_0;
            &&& e.event.event_type@ == "subscription.renewed"@
            &&& e.event.transaction_id == Some(t.id)
            &&& e.event.order_id == reply_order_id(reply)
            &&& e.event.payload@ == renewed_payload(before, t)
        },
        Some(error) => {
            &&& e.event.event_type@ == "subscription.past_due"@
            &&& e.event.transaction_id is None
            &&& e.event.order_id is None
            &&& e.event.payload@ == past_due_payload(before, error.text(), now@)
        },
    }
}

fn renewed_event(
    before: &Subscription,
    end: Timestamp,
    t: &Transaction,
    now: Timestamp,
) -> (e: TenantEvent)
    requires
        end@ == period_end(before.current_period_end@, before.cadence),
    ensures
        is_fresh_id(e.event.id@, "evt_"@),
        e.event.event_type@ == "subscription.renewed"@,
        e.event.transaction_id == Some(t.id),
        e.event.order_id == t.order_id,
        e.event.agent_id == Some(before.agent_id),
        e.event.occurred_at == now,
        e.event.payload@ == renewed_payload(*before, *t),
        e.tenant_id == before.tenant_id,
{
    let start_text = rfc3339(before.current_period_end, true);
    let end_text = rfc3339(end, true);
    let (amount, currency) = shown_total(t);
    let cycle: u32 = count_one_more(before.charges_completed);
    let payload = ObjectBuilder::new().put_str("subscription_id", before.id.as_str()).put(
        "automatic",
        Json::Bool(true),
    ).put_str("transaction_id", t.id.as_str()).put("cycle_number", Json::Int(cycle as i64)).put_str(
        "current_period_start",
        start_text.as_str(),
    ).put_str("current_period_end", end_text.as_str()).put_str(
        "next_charge_at",
        end_text.as_str(),
    ).put_opt_int("amount_minor", amount).put_str("currency", currency.as_str()).build();
    let event = Event {
        id: fresh_id("evt_"),
        event_type: String::from_str("subscription.renewed"),
        transaction_id: Some(t.id.clone()),
        order_id: t.order_id.clone(),
        agent_id: Some(before.agent_id.clone()),
        occurred_at: now,
        payload,
    };
    TenantEvent { event, tenant_id: before.tenant_id.clone() }
}

fn past_due_event(before: &Subscription, failures: u32, error: &ApiError, now: Timestamp) -> (e:
    TenantEvent)
    requires
        failures == one_more(before.failed_renewal_attempts),
    ensures
        is_fresh_id(e.event.id@, "evt_"@),
        e.event.event_type@ == "subscription.past_due"@,
        e.event.transaction_id is None,
        e.event.order_id is None,
        e.event.agent_id == Some(before.agent_id),
        e.event.occurred_at == now,
        e.event.payload@ == past_due_payload(*before, error@.text(), now@),
        e.tenant_id == before.tenant_id,
{
    let at = rfc3339(now, true);
    let text = error.to_text();
    let payload = ObjectBuilder::new().put_str("subscription_id", before.id.as_str()).put(
        "consecutive_failures",
        Json::Int(failures as i64),
    ).put("attempts_made", Json::Int(failures as i64)).put_str("last_error", text.as_str()).put_str(
        "last_attempt_at",
        at.as_str(),
    ).put_str("next_action", "manual_renewal_required").build();
    let event = Event {
        id: fresh_id("evt_"),
        event_type: String::from_str("subscription.past_due"),
        transaction_id: None,
        order_id: None,
        agent_id: Some(before.agent_id.clone()),
        occurred_at: now,
        payload,
    };
    TenantEvent { event, tenant_id: before.tenant_id.clone() }
}

impl IcpService {
    /// Settles one attempt. What comes back is whether the subscription was
    /// renewed, and the event when there is one.
    pub fn settle_renewal(&mut self, attempt: RenewalAttempt, now: Timestamp) -> (r: (
        bool,
        Option<TenantEvent>,
    ))
        requires
            old(self).wf(),
            old(self).subscriptions@.contains_key(attempt.subscription_id@),
            period_can_start(
                old(self).subscriptions@[attempt.subscription_id@].current_period_end@,
                old(self).subscriptions@[attempt.subscription_id@].cadence,
            ),
            schedule_fits(old(self).config.subscription_dunning_schedule_hours@, now@),
        ensures
            final(self).wf(),
            *final(self) == (IcpService {
                transactions: final(self).transactions,
                subscriptions: final(self).subscriptions,
                ..*old(self)
            }),
            ({
                let id = attempt.subscription_id@;
                let before = old(self).subscriptions@[id];
                let production = old(self).config.production;
                let schedule = old(self).config.subscription_dunning_schedule_hours@;
                &&& final(self).subscriptions@ == old(self).subscriptions@.insert(
                    id,
                    final(self).subscriptions@[id],
                )
                &&& settled(
                    before,
                    final(self).subscriptions@[id],
                    attempt,
                    production,
                    schedule,
                    now,
                )
                &&& final(self).transactions@ == with_charge(
                    old(self).transactions@,
                    attempt,
                    production,
                )
                &&& r.0 == (attempt_error(attempt, production) is None)
                &&& match r.1 {
                    Some(e) => has_event(attempt, before, production, schedule) && tells_attempt(
                        e,
                        attempt,
                        before,
                        production,
                        now,
                    ),
                    None => !has_event(attempt, before, production, schedule),
                }
            }),
    {
        let ghost m = self.subscriptions@;
        let id = attempt.subscription_id.as_str();
        let charged = match attempt.charge {
            Ok((t, reply)) => match self.finish_subscription_charge(t, reply) {
                Ok((shown, _)) => Ok(shown),
                Err(e) => Err(e),
            },
            Err(e) => Err(e),
        };
        match self.take_subscription(id) {
            Some(mut s) => match charged {
                Ok(t) => {
                    let end = period_advance(s.current_period_end, s.cadence);
                    let event = renewed_event(&s, end, &t, now);
                    s.current_period_start = s.current_period_end;
                    s.current_period_end = end;
                    s.next_charge_at = end;
                    s.charges_completed = count_one_more(s.charges_completed);
                    s.last_transaction_id = Some(t.id);
                    s.failed_renewal_attempts = 0;
                    if s.status == SubscriptionStatus::Trialing {
                        s.status = SubscriptionStatus::Active;
                        s.trial_end = None;
                    }
                    s.updated_at = now;
                    self.put_subscription(s);
                    assert(self.subscriptions@ =~= m.insert(id@, s));
                    (true, Some(event))
                },
                Err(error) => {
                    let most: u32 = dunning_max_attempts(
                        &self.config.subscription_dunning_schedule_hours,
                    );
                    let failures: u32 = count_one_more(s.failed_renewal_attempts);
                    let event = if failures >= most {
                        let event = past_due_event(&s, failures, &error, now);
                        s.status = SubscriptionStatus::PastDue;
                        Some(event)
                    } else {
                        match dunning_next_attempt(
                            &self.config.subscription_dunning_schedule_hours,
                            failures,
                            now,
                        ) {
                            Some(at) => {
                                s.next_charge_at = at;
                            },
                            None => {},
                        }
                        None
                    };
                    s.failed_renewal_attempts = failures;
                    s.updated_at = now;
                    self.put_subscription(s);
                    assert(self.subscriptions@ =~= m.insert(id@, s));
                    (false, event)
                },
            },
            None => (false, None),
        }
    }
}

// ---------------------------------------------------------------------------
// Settling a tick
// ---------------------------------------------------------------------------

/// How many of the first `n` attempts succeeded.
pub open spec fn renewals(attempts: Seq<RenewalAttempt>, production: bool, n: int) -> int
    decreases n,
{
    if n <= 0 {
        0
    } else {
        renewals(attempts, production, n - 1) + if attempt_error(attempts[n - 1], production)
            is None {
            1int
        } else {
            0int
        }
    }
}

/// How many of the first `n` attempts led to an event.
pub open spec fn events_of(
    attempts: Seq<RenewalAttempt>,
    m: Map<Seq<char>, Subscription>,
    production: bool,
    schedule: Seq<u32>,
    n: int,
) -> int
    decreases n,
{
    if n <= 0 {
        0
    } else {
        let a = attempts[n - 1];
        events_of(attempts, m, production, schedule, n - 1) + if has_event(
            a,
            m[a.subscription_id@],
            production,
            schedule,
        ) {
            1int
        } else {
            0int
        }
    }
}

/// The transactions after the first `n` attempts.
pub open spec fn with_charges(
    m: Map<Seq<char>, Transaction>,
    attempts: Seq<RenewalAttempt>,
    production: bool,
    n: int,
) -> Map<Seq<char>, Transaction>
    decreases n,
{
    if n <= 0 {
        m
    } else {
        with_charge(with_charges(m, attempts, production, n - 1), attempts[n - 1], production)
    }
}

/// Whether the attempt at `i` is about this subscription.
pub open spec fn attempt_on(attempts: Seq<RenewalAttempt>, i: int, id: Seq<char>) -> bool {
    0 <= i < attempts.len() && attempts[i].subscription_id@ == id
}

/// Whether no two attempts are about the same subscription.
pub open spec fn one_attempt_each(attempts: Seq<RenewalAttempt>) -> bool {
    forall|i: int, j: int|
        0 <= i < j < attempts.len() ==> (#[trigger] attempts[i]).subscription_id@ != (
        #[trigger] attempts[j]).subscription_id@
}

/// Whether every subscription under attempt exists, with a next period on the
/// calendar.
pub open spec fn attempts_fit(attempts: Seq<RenewalAttempt>, m: Map<Seq<char>, Subscription>) -> bool {
    forall|i: int|
        0 <= i < attempts.len() ==> {
            let id = (#[trigger] attempts[i]).subscription_id@;
            m.contains_key(id) && period_can_start(m[id].current_period_end@, m[id].cadence)
        }
}

/// Whether the first `n` attempts are settled, and the other subscriptions are
/// as they were.
pub open spec fn settled_so_far(
    before: Map<Seq<char>, Subscription>,
    after: Map<Seq<char>, Subscription>,
    attempts: Seq<RenewalAttempt>,
    production: bool,
    schedule: Seq<u32>,
    now: Timestamp,
    n: int,
) -> bool {
    &&& after.dom() == before.dom()
    &&& forall|i: int|
        0 <= i < n ==> {
            let id = (#[trigger] attempts[i]).subscription_id@;
            settled(before[id], after[id], attempts[i], production, schedule, now)
        }
    &&& forall|k: Seq<char>|
        before.contains_key(k) && (forall|i: int| i < n ==> !attempt_on(attempts, i, k))
            ==> #[trigger] after[k] == before[k]
}

/// Whether there is one event for each of the first `n` attempts that has one,
/// in order.
pub open spec fn tells_attempts(
    events: Seq<TenantEvent>,
    attempts: Seq<RenewalAttempt>,
    m: Map<Seq<char>, Subscription>,
    production: bool,
    schedule: Seq<u32>,
    now: Timestamp,
    n: int,
) -> bool {
    &&& events.len() == events_of(attempts, m, production, schedule, n)
    &&& forall|i: int|
        0 <= i < n && has_event(
            #[trigger] attempts[i],
            m[attempts[i].subscription_id@],
            production,
            schedule,
        ) ==> {
            let at = events_of(attempts, m, production, schedule, i);
            &&& 0 <= at < events.len()
            &&& tells_attempt(
                events[at],
                attempts[i],
                m[attempts[i].subscription_id@],
                production,
                now,
            )
        }
}

/// What a tick makes of the attempts: each is settled, nothing else changes, and the
/// report and the events tell of it.
pub open spec fn ticked(
    before: IcpService,
    after: IcpService,
    attempts: Seq<RenewalAttempt>,
    now: Timestamp,
    report: SchedulerTickReport,
    events: Seq<TenantEvent>,
) -> bool {
    let m = before.subscriptions@;
    let n = attempts.len() as int;
    let production = before.config.production;
    let schedule = before.config.subscription_dunning_schedule_hours@;
    let good = renewals(attempts, production, n);
    let told = events_of(attempts, m, production, schedule, n);
    &&& after == (IcpService {
        transactions: after.transactions,
        subscriptions: after.subscriptions,
        ..before
    })
    &&& settled_so_far(m, after.subscriptions@, attempts, production, schedule, now, n)
    &&& after.transactions@ == with_charges(before.transactions@, attempts, production, n)
    &&& tells_attempts(events, attempts, m, production, schedule, now, n)
    &&& m.dom().finite()
    &&& report.scanned == m.dom().len()
    &&& report.due == n
    &&& report.renewed == good
    &&& report.failed == n - good
    &&& report.past_due == told - good
}

impl IcpService {
    /// Whether the attempts can be settled at `now`: one for each subscription, every
    /// one of which exists and has a next period on the calendar, and a schedule of
    /// retries that stays on it.
    pub fn can_tick(&self, attempts: &Vec<RenewalAttempt>, now: Timestamp) -> (r: bool)
        ensures
            r == (one_attempt_each(attempts@) && attempts_fit(attempts@, self.subscriptions@)
                && schedule_fits(self.config.subscription_dunning_schedule_hours@, now@)),
    {
        let schedule = &self.config.subscription_dunning_schedule_hours;
        let mut i: usize = 0;
        while i < schedule.len()
            invariant
                i <= schedule@.len(),
                schedule@ == self.config.subscription_dunning_schedule_hours@,
                forall|j: int|
                    0 <= j < i ==> representable(
                        now@ + #[trigger] schedule@[j] * 3_600_000_000_000,
                    ),
            decreases schedule@.len() - i,
        {
            if now.checked_add(Span::hours(schedule[i] as i64)).is_none() {
                assert(!representable(now@ + schedule@[i as int] * 3_600_000_000_000));
                return false;
            }
            i += 1;
        }
        let mut i: usize = 0;
        while i < attempts.len()
            invariant
                i <= attempts@.len(),
                schedule_fits(self.config.subscription_dunning_schedule_hours@, now@),
                attempts_fit(attempts@.take(i as int), self.subscriptions@),
                one_attempt_each(attempts@.take(i as int)),
            decreases attempts@.len() - i,
        {
            let id = attempts[i].subscription_id.as_str();
            let fits = match self.subscriptions.get(id) {
                Some(s) => period_is_representable(s.current_period_end, s.cadence),
                None => false,
            };
            if !fits {
                assert(attempts@[i as int].subscription_id@ == id@);
                return false;
            }
            let mut j: usize = 0;
            while j < i
                invariant
                    j <= i < attempts@.len(),
                    id@ == attempts@[i as int].subscription_id@,
                    forall|k: int|
                        0 <= k < j ==> (#[trigger] attempts@[k]).subscription_id@ != id@,
                decreases i - j,
            {
                if str_eq(attempts[j].subscription_id.as_str(), id) {
                    assert(attempts@[j as int].subscription_id@ == id@);
                    return false;
                }
                j += 1;
            }
            let ghost shorter = attempts@.take(i as int);
            let ghost longer = attempts@.take(i as int + 1);
            proof {
                assert forall|k: int| 0 <= k < longer.len() implies ({
                    let at = (#[trigger] longer[k]).subscription_id@;
                    self.subscriptions@.contains_key(at) && period_can_start(
                        self.subscriptions@[at].current_period_end@,
                        self.subscriptions@[at].cadence,
                    )
                }) by {
                    if k < i {
                        assert(longer[k] == shorter[k]);
                    }
                }
                assert forall|k: int, l: int| 0 <= k < l < longer.len() implies (
                #[trigger] longer[k]).subscription_id@ != (#[trigger] longer[l]).subscription_id@ by {
                    if l < i {
                        assert(longer[k] == shorter[k] && longer[l] == shorter[l]);
                    } else {
                        assert(longer[k] == attempts@[k]);
                    }
                }
            }
            i += 1;
        }
        assert(attempts@.take(attempts@.len() as int) =~= attempts@);
        true
    }
}

proof fn lemma_events_of_bounds(
    attempts: Seq<RenewalAttempt>,
    m: Map<Seq<char>, Subscription>,
    production: bool,
    schedule: Seq<u32>,
    n: int,
)
    requires
        0 <= n <= attempts.len(),
    ensures
        renewals(attempts, production, n) <= events_of(attempts, m, production, schedule, n) <= n,
        0 <= renewals(attempts, production, n),
    decreases n,
{
    if n > 0 {
        lemma_events_of_bounds(attempts, m, production, schedule, n - 1);
    }
}

impl IcpService {
    /// Second half of a tick: settles every attempt. A success moves the period
    /// on and resets the failures; a failure counts toward `past_due`. There is
    /// an event for every renewal and for every subscription that becomes past
    /// due.
    #[verifier::spinoff_prover]
    #[verifier::rlimit(60)]
    pub fn tick_subscriptions(&mut self, attempts: Vec<RenewalAttempt>, now: Timestamp) -> (r: (
        SchedulerTickReport,
        Vec<TenantEvent>,
    ))
        requires
            old(self).wf(),
            one_attempt_each(attempts@),
            attempts_fit(attempts@, old(self).subscriptions@),
            schedule_fits(old(self).config.subscription_dunning_schedule_hours@, now@),
        ensures
            final(self).wf(),
            ticked(*old(self), *final(self), attempts@, now, r.0, r.1@),
    {
        let ghost m = self.subscriptions@;
        let ghost production = self.config.production;
        let ghost schedule = self.config.subscription_dunning_schedule_hours@;
        let ghost all = attempts@;
        let scanned: usize = self.subscriptions.len();
        let due: usize = attempts.len();
        let mut renewed: usize = 0;
        let mut failed: usize = 0;
        let mut past_due: usize = 0;
        let mut events: Vec<TenantEvent> = Vec::new();
        for attempt in it: attempts
            invariant
                it.seq() == all,
                due == all.len(),
                one_attempt_each(all),
                attempts_fit(all, m),
                m == old(self).subscriptions@,
                production == old(self).config.production,
                schedule == old(self).config.subscription_dunning_schedule_hours@,
                schedule_fits(schedule, now@),
                self.wf(),
                *self == (IcpService {
                    transactions: self.transactions,
                    subscriptions: self.subscriptions,
                    ..*old(self)
                }),
                settled_so_far(
                    m,
                    self.subscriptions@,
                    all,
                    production,
                    schedule,
                    now,
                    it.index() as int,
                ),
                self.transactions@ == with_charges(
                    old(self).transactions@,
                    all,
                    production,
                    it.index() as int,
                ),
                tells_attempts(
                    events@,
                    all,
                    m,
                    production,
                    schedule,
                    now,
                    it.index() as int,
                ),
                renewed == renewals(all, production, it.index() as int),
                renewed + failed == it.index(),
                renewed + past_due == events@.len(),
                past_due <= failed,
        {
            let ghost i = it.index() as int;
            let ghost id = attempt.subscription_id@;
            let ghost middle = self.subscriptions@;
            let ghost told = events@;
            proof {
                assert(all[i] == attempt);
                assert forall|j: int| j < i implies !attempt_on(all, j, id) by {
                    if attempt_on(all, j, id) {
                        assert(all[j].subscription_id@ != all[i].subscription_id@);
                    }
                }
                assert(middle[id] == m[id]);
                assert(middle.dom().contains(id));
                lemma_events_of_bounds(all, m, production, schedule, i);
                lemma_events_of_bounds(all, m, production, schedule, i + 1);
            }
            let (good, event) = self.settle_renewal(attempt, now);
            if good {
                renewed += 1;
            } else {
                failed += 1;
                if event.is_some() {
                    past_due += 1;
                }
            }
            match event {
                Some(e) => {
                    events.push(e);
                },
                None => {},
            }
            proof {
                assert(self.subscriptions@.dom() =~= m.dom());
                assert forall|j: int| 0 <= j < i + 1 implies ({
                    let k = (#[trigger] all[j]).subscription_id@;
                    settled(m[k], self.subscriptions@[k], all[j], production, schedule, now)
                }) by {
                    if j < i {
                        assert(all[j].subscription_id@ != all[i].subscription_id@);
                    }
                }
                assert forall|k: Seq<char>|
                    m.contains_key(k) && (forall|j: int| j < i + 1 ==> !attempt_on(all, j, k))
                        implies #[trigger] self.subscriptions@[k] == m[k] by {
                    assert(!attempt_on(all, i, k));
                    assert(forall|j: int| j < i ==> !attempt_on(all, j, k));
                    assert(middle[k] == m[k]);
                }
                assert forall|j: int|
                    0 <= j < i + 1 && has_event(
                        #[trigger] all[j],
                        m[all[j].subscription_id@],
                        production,
                        schedule,
                    ) implies ({
                    let at = events_of(all, m, production, schedule, j);
                    &&& 0 <= at < events@.len()
                    &&& tells_attempt(
                        events@[at],
                        all[j],
                        m[all[j].subscription_id@],
                        production,
                        now,
                    )
                }) by {
                    if j < i {
                        let at = events_of(all, m, production, schedule, j);
                        assert(events@[at] == told[at]);
                    }
                }
            }
        }
        (SchedulerTickReport { scanned, due, renewed, failed, past_due }, events)
    }
}

// ---------------------------------------------------------------------------
// Laws
// ---------------------------------------------------------------------------

/// Every attempt either renews or fails, and only failures become past due.
pub proof fn law_every_attempt_is_counted_once(
    attempts: Seq<RenewalAttempt>,
    m: Map<Seq<char>, Subscription>,
    production: bool,
    schedule: Seq<u32>,
)
    ensures
        ({
            let n = attempts.len() as int;
            let good = renewals(attempts, production, n);
            let told = events_of(attempts, m, production, schedule, n);
            &&& 0 <= good <= n
            &&& 0 <= told - good <= n - good
        }),
{
    lemma_events_of_bounds(attempts, m, production, schedule, attempts.len() as int);
}

/// A subscription becomes past due exactly with the failure after the last retry
/// of the schedule, and with the third failure when there is no schedule.
pub proof fn law_past_due_after_last_retry(
    before: Subscription,
    after: Subscription,
    schedule: Seq<u32>,
    now: Timestamp,
)
    requires
        failed_once(before, after, schedule, now),
        !(before.status is PastDue),
        schedule.len() < u32::MAX,
        before.failed_renewal_attempts < u32::MAX,
    ensures
        after.failed_renewal_attempts == before.failed_renewal_attempts + 1,
        after.status is PastDue <==> after.failed_renewal_attempts >= (if schedule.len() == 0 {
            3
        } else {
            schedule.len() + 1
        }),
{
}

/// A retry is never earlier than the failure, and without a schedule the date
/// of the next charge stays, so the next tick tries again.
pub proof fn law_retries_follow_the_schedule(
    before: Subscription,
    after: Subscription,
    schedule: Seq<u32>,
    now: Timestamp,
)
    requires
        failed_once(before, after, schedule, now),
        !turns_past_due(before, schedule),
        schedule.len() < u32::MAX,
        before.failed_renewal_attempts < u32::MAX,
    ensures
        schedule.len() == 0 ==> after.next_charge_at@ == before.next_charge_at@,
        schedule.len() > 0 ==> after.next_charge_at@ == now@ + schedule[after.failed_renewal_attempts
            - 1] * 3_600_000_000_000,
        schedule.len() > 0 ==> after.next_charge_at@ >= now@,
{
}

/// A success resets the count of failures and ends a trial, and periods do not drift:
/// each starts exactly where the one before it ended.
pub proof fn law_success_resets_failures(
    before: Subscription,
    after: Subscription,
    charge_id: String,
    now: Timestamp,
)
    requires
        auto_renewed(before, after, charge_id, now),
    ensures
        after.failed_renewal_attempts == 0,
        after.current_period_start == before.current_period_end,
        after.next_charge_at == after.current_period_end,
        before.status is Active || before.status is Trialing ==> after.status is Active,
        before.status is Trialing ==> after.trial_end is None,
{
}

/// Subscriptions that are paused, canceled or past due, and those without an
/// instrument, are never charged automatically.
pub proof fn law_idle_subscriptions_are_not_due(s: Subscription, now: int)
    ensures
        s.status is Paused || s.status is Canceled || s.status is PastDue || s.payment_instrument
            is None ==> !due_for_renewal(s, now),
{
}

/// Whether every planned charge was attempted, and nothing else was.
pub open spec fn attempts_plan(attempts: Seq<RenewalAttempt>, plan: Seq<DueCharge>) -> bool {
    &&& attempts.len() == plan.len()
    &&& forall|i: int|
        0 <= i < plan.len() ==> {
            &&& (#[trigger] attempts[i]).subscription_id@ == plan[i].subscription_id@
            &&& match plan[i].charge {
                Ok(t) => attempts[i].charge matches Ok((charged, _)) && charged == t,
                Err(e) => attempts[i].charge matches Err(x) && x == e,
            }
        }
}

/// The subscriptions that are due.
pub open spec fn due_set(m: Map<Seq<char>, Subscription>, now: int) -> Set<Seq<char>> {
    m.dom().filter(|k: Seq<char>| due_for_renewal(m[k], now))
}

/// Whether the subscription moved on by one period: it starts where the last one ended,
/// and the failures are forgotten.
pub open spec fn moved_on(before: Subscription, after: Subscription) -> bool {
    &&& after.status is Active
    &&& after.current_period_start == before.current_period_end
    &&& after.next_charge_at == after.current_period_end
    &&& after.failed_renewal_attempts == 0
    &&& after.charges_completed == one_more(before.charges_completed)
}

/// Whether the subscription failed once more: with the failure after the last retry of
/// the schedule it is past due, and before that the next retry is set.
pub open spec fn fell_behind(
    before: Subscription,
    after: Subscription,
    schedule: Seq<u32>,
    now: int,
) -> bool {
    let k = before.failed_renewal_attempts + 1;
    let most = if schedule.len() == 0 {
        3
    } else {
        schedule.len() + 1
    };
    &&& after.failed_renewal_attempts == k
    &&& after.current_period_end == before.current_period_end
    &&& after.status is PastDue <==> k >= most
    &&& k < most ==> after.status == before.status
    &&& k < most && schedule.len() > 0 ==> after.next_charge_at@ == now + schedule[k - 1]
        * 3_600_000_000_000
    &&& k < most && schedule.len() == 0 ==> after.next_charge_at@ == before.next_charge_at@
}

/// A whole tick: the subscriptions that are due are counted, each of them either moves on
/// or falls behind, and no other is touched. Renewals and failures add up to what was due,
/// and only failures become past due.
pub proof fn law_a_tick_settles_what_is_due(
    before: IcpService,
    after: IcpService,
    plan: Seq<DueCharge>,
    attempts: Seq<RenewalAttempt>,
    now: Timestamp,
    report: SchedulerTickReport,
    events: Seq<TenantEvent>,
    id: Seq<char>,
)
    requires
        plans_due(plan, before, now),
        attempts_plan(attempts, plan),
        ticked(before, after, attempts, now, report, events),
        before.config.subscription_dunning_schedule_hours@.len() < u32::MAX,
        before.subscriptions@.contains_key(id),
        before.subscriptions@[id].failed_renewal_attempts < u32::MAX,
    ensures
        report.due == due_set(before.subscriptions@, now@).len(),
        report.due <= report.scanned,
        report.renewed + report.failed == report.due,
        report.past_due <= report.failed,
        after.subscriptions@.dom() == before.subscriptions@.dom(),
        ({
            let s = before.subscriptions@[id];
            let t = after.subscriptions@[id];
            if due_for_renewal(s, now@) {
                ||| moved_on(s, t)
                ||| fell_behind(
                    s,
                    t,
                    before.config.subscription_dunning_schedule_hours@,
                    now@,
                )
            } else {
                t == s
            }
        }),
{
    let m = before.subscriptions@;
    let keys = due_subscriptions(before.subscriptions, now@);
    let schedule = before.config.subscription_dunning_schedule_hours@;
    let n = attempts.len() as int;
    keys.unique_seq_to_set();
    assert(keys.to_set() =~= due_set(m, now@));
    lemma_len_subset(due_set(m, now@), m.dom());
    lemma_events_of_bounds(attempts, m, before.config.production, schedule, n);
    if due_for_renewal(m[id], now@) {
        assert(keys.contains(id));
        let i = choose|i: int| 0 <= i < keys.len() && keys[i] == id;
        assert(plan[i].subscription_id@ == keys[i]);
        assert(attempts[i].subscription_id@ == id);
    } else {
        assert forall|i: int| i < n implies !attempt_on(attempts, i, id) by {
            if attempt_on(attempts, i, id) {
                assert(plan[i].subscription_id@ == keys[i]);
                assert(keys.contains(keys[i]));
            }
        }
    }
}

/// Whether each of these states failed to renew into the next one.
pub open spec fn fails_through(
    states: Seq<Subscription>,
    times: Seq<Timestamp>,
    schedule: Seq<u32>,
) -> bool {
    &&& states.len() == times.len() + 1
    &&& forall|i: int|
        0 <= i < times.len() ==> failed_once(
            #[trigger] states[i],
            states[i + 1],
            schedule,
            times[i],
        )
}

/// The failures in a row after a success: the k-th one makes the subscription past due
/// exactly when the schedule has no retry left for it, and else the retry is that of the
/// schedule, counted from the failure.
pub proof fn law_failures_in_a_row(
    states: Seq<Subscription>,
    times: Seq<Timestamp>,
    schedule: Seq<u32>,
    k: int,
)
    requires
        fails_through(states, times, schedule),
        states[0].failed_renewal_attempts == 0,
        states[0].status is Active,
        schedule.len() < u32::MAX,
        1 <= k <= times.len() < u32::MAX,
    ensures
        states[k].failed_renewal_attempts == k,
        states[k].status is PastDue <==> k >= max_attempts(schedule.len()),
        k < max_attempts(schedule.len()) && schedule.len() > 0 ==> states[k].next_charge_at@
            == times[k - 1]@ + schedule[k - 1] * 3_600_000_000_000,
    decreases k,
{
    assert(failed_once(states[k - 1], states[k - 1 + 1], schedule, times[k - 1]));
    if k > 1 {
        law_failures_in_a_row(states, times, schedule, k - 1);
    }
}

/// A subscription is charged automatically exactly when it runs, its date has come, and an
/// instrument is on file.
pub proof fn law_running_subscriptions_fall_due(s: Subscription, now: int)
    ensures
        due_for_renewal(s, now) <==> (s.status is Active || s.status is Trialing)
            && s.next_charge_at@ <= now && s.payment_instrument is Some,
{
}

/// A planned charge is for the basket of its subscription, at today's prices, under its
/// mandate and to its buyer. There is none where the peer must consent each time, or where
/// the basket cannot be priced.
pub proof fn law_planned_charges_are_for_their_subscription(
    d: DueCharge,
    s: Subscription,
    now: Timestamp,
)
    requires
        planned(d, s, now),
    ensures
        ({
            let faulty = exists|i: int|
                0 <= i < s.items@.len() && (#[trigger] s.items@[i].quantity <= 0 || (
                s.items@[i].unit_price_hint matches Some(m) && m.amount_minor < 0));
            let by_peer = s.payment_instrument matches Some(p) && p is A2A;
            d.charge is Ok <==> !by_peer && !faulty
        }),
        d.charge matches Ok(t) ==> {
            &&& t.state is Completed && t.tenant_id == s.tenant_id && t.agent_id@ == s.agent_id@
            &&& t.mandate_jti == s.mandate_jti && t.buyer == s.buyer && t.ship_to == s.ship_to
            &&& t.currency@ == s.currency@ && priced_basket(
                t.line_items@,
                t.totals,
                s.items@,
                s.currency@,
            )
            &&& t.created_at == now && t.updated_at == now
            &&& t.jurisdiction is None && t.bill_to is None && t.order_id is None
                && t.quote_expires_at is None && t.external_refs@.dom() =~= Set::empty()
        },
{
    law_baskets_need_sound_positions(s.items@, "subscription.items"@);
}

/// An attempt succeeds exactly when there was a charge and, in production, the engine kept
/// its order. The subscription then moves on by one period and the charge is kept with that
/// order; a trial is over.
pub proof fn law_successful_attempts_move_on(
    before: IcpService,
    after: IcpService,
    attempts: Seq<RenewalAttempt>,
    now: Timestamp,
    report: SchedulerTickReport,
    events: Seq<TenantEvent>,
    i: int,
)
    requires
        ticked(before, after, attempts, now, report, events),
        0 <= i < attempts.len(),
        attempts[i].charge is Ok,
        before.config.production ==> attempts[i].charge->Ok_0.1 is Persisted,
    ensures
        ({
            let id = attempts[i].subscription_id@;
            let was = before.subscriptions@[id];
            let s = after.subscriptions@[id];
            let t = attempts[i].charge->Ok_0.0;
            &&& s.current_period_start == was.current_period_end
            &&& s.current_period_end@ == period_end(was.current_period_end@, was.cadence)
            &&& s.next_charge_at == s.current_period_end
            &&& was.charges_completed < u32::MAX ==> s.charges_completed == was.charges_completed
                + 1
            &&& s.last_transaction_id == Some(t.id) && s.failed_renewal_attempts == 0
            &&& was.status is Trialing ==> s.status is Active && s.trial_end is None
            &&& !(was.status is Trialing) ==> s.status == was.status && s.trial_end
                == was.trial_end
            &&& s.items == was.items && s.cadence == was.cadence && s.buyer == was.buyer
                && s.payment_instrument == was.payment_instrument && s.currency == was.currency
                && s.mandate_jti == was.mandate_jti && s.tenant_id == was.tenant_id
            &&& s.updated_at == now
            &&& exists|e: int|
                0 <= e < events.len() && #[trigger] tells_attempt(
                    events[e],
                    attempts[i],
                    was,
                    before.config.production,
                    now,
                )
        }),
{
    let id = attempts[i].subscription_id@;
    let production = before.config.production;
    let schedule = before.config.subscription_dunning_schedule_hours@;
    assert(settled(
        before.subscriptions@[id],
        after.subscriptions@[id],
        attempts[i],
        production,
        schedule,
        now,
    ));
    assert(has_event(attempts[i], before.subscriptions@[id], production, schedule));
    let at = events_of(attempts, before.subscriptions@, production, schedule, i);
    assert(tells_attempt(events[at], attempts[i], before.subscriptions@[id], production, now));
}

/// An attempt that fails leaves the period, the charges and the terms of the subscription as
/// they were and counts one more failure. With the one after the last retry of the schedule,
/// or with the third where there is no schedule, the subscription is past due and its tenant
/// is told; before that the next attempt is made when the schedule says.
pub proof fn law_failed_attempts_are_counted(
    before: IcpService,
    after: IcpService,
    attempts: Seq<RenewalAttempt>,
    now: Timestamp,
    report: SchedulerTickReport,
    events: Seq<TenantEvent>,
    i: int,
)
    requires
        ticked(before, after, attempts, now, report, events),
        0 <= i < attempts.len(),
        attempts[i].charge is Err || (before.config.production && !(attempts[i].charge->Ok_0.1
            is Persisted)),
        before.subscriptions@[attempts[i].subscription_id@].failed_renewal_attempts < u32::MAX,
        before.config.subscription_dunning_schedule_hours@.len() < u32::MAX,
    ensures
        ({
            let id = attempts[i].subscription_id@;
            let was = before.subscriptions@[id];
            let s = after.subscriptions@[id];
            let schedule = before.config.subscription_dunning_schedule_hours@;
            let failures = was.failed_renewal_attempts + 1;
            let last = if schedule.len() == 0 {
                3
            } else {
                schedule.len() + 1
            };
            &&& s.failed_renewal_attempts == failures
            &&& failures >= last ==> s.status is PastDue && s.next_charge_at@
                == was.next_charge_at@
            &&& failures < last ==> s.status == was.status
            &&& failures < last && schedule.len() > 0 ==> s.next_charge_at@ == now@
                + schedule[failures - 1] * 3_600 * 1_000_000_000
            &&& failures < last && schedule.len() == 0 ==> s.next_charge_at@
                == was.next_charge_at@
            &&& s.current_period_start == was.current_period_start && s.current_period_end
                == was.current_period_end && s.charges_completed == was.charges_completed
                && s.last_transaction_id == was.last_transaction_id && s.items == was.items
                && s.trial_end == was.trial_end && s.payment_instrument == was.payment_instrument
            &&& s.updated_at == now
            &&& failures >= last ==> exists|e: int|
                0 <= e < events.len() && #[trigger] tells_attempt(
                    events[e],
                    attempts[i],
                    was,
                    before.config.production,
                    now,
                )
        }),
{
    let id = attempts[i].subscription_id@;
    let production = before.config.production;
    let schedule = before.config.subscription_dunning_schedule_hours@;
    assert(settled(
        before.subscriptions@[id],
        after.subscriptions@[id],
        attempts[i],
        production,
        schedule,
        now,
    ));
    if turns_past_due(before.subscriptions@[id], schedule) {
        assert(has_event(attempts[i], before.subscriptions@[id], production, schedule));
        let at = events_of(attempts, before.subscriptions@, production, schedule, i);
        assert(tells_attempt(events[at], attempts[i], before.subscriptions@[id], production, now));
    }
}

/// What the event of an attempt says: to whom it belongs, what became of the subscription,
/// and, of a renewal, with which charge, at which amount and until when.
pub proof fn law_renewal_events_tell_what_happened(
    e: TenantEvent,
    a: RenewalAttempt,
    before: Subscription,
    production: bool,
    now: Timestamp,
)
    requires
        tells_attempt(e, a, before, production, now),
    ensures
        e.tenant_id == before.tenant_id && e.event.agent_id == Some(before.agent_id)
            && e.event.occurred_at == now,
        e.event.payload@.member("subscription_id"@) == Some(JsonView::Str(before.id@)),
        ({
            let good = a.charge is Ok && (production ==> a.charge->Ok_0.1 is Persisted);
            let t = a.charge->Ok_0.0;
            &&& good ==> {
                &&& e.event.event_type@ == "subscription.renewed"@
                &&& e.event.transaction_id == Some(t.id)
                &&& e.event.payload@.member("transaction_id"@) == Some(JsonView::Str(t.id@))
                &&& e.event.payload@.member("current_period_end"@) == Some(
                    JsonView::Str(
                        rfc3339_text(period_end(before.current_period_end@, before.cadence), true),
                    ),
                )
                &&& t.totals.total matches Some(m) ==> e.event.payload@.member("amount_minor"@)
                    == Some(JsonView::Int(m.amount_minor as int)) && e.event.payload@.member(
                    "currency"@,
                ) == Some(JsonView::Str(m.currency@))
            }
            &&& !good ==> {
                &&& e.event.event_type@ == "subscription.past_due"@
                &&& e.event.transaction_id is None
                &&& before.failed_renewal_attempts < u32::MAX ==> e.event.payload@.member(
                    "consecutive_failures"@,
                ) == Some(JsonView::Int(before.failed_renewal_attempts + 1))
            }
        }),
{
    let m = e.event.payload@->Object_0;
    reveal_strlit("subscription_id");
    reveal_strlit("automatic");
    reveal_strlit("transaction_id");
    reveal_strlit("cycle_number");
    reveal_strlit("current_period_start");
    reveal_strlit("current_period_end");
    reveal_strlit("next_charge_at");
    reveal_strlit("amount_minor");
    reveal_strlit("currency");
    reveal_strlit("consecutive_failures");
    assert(m[0].0 == "subscription_id"@);
    lemma_member_found(m, "subscription_id"@, 0, 0);
    if attempt_error(a, production) is None {
        assert("cycle_number"@[0] == 'c' && "amount_minor"@[0] == 'a' && "transaction_id"@[0]
            == 't' && "next_charge_at"@[0] == 'n');
        assert(m[1].0.len() == 9 && m[2].0.len() == 14 && m[3].0.len() == 12 && m[4].0.len() == 20
            && m[5].0.len() == 18 && m[6].0.len() == 14 && m[7].0.len() == 12 && m[8].0.len() == 8);
        assert(m[2].0 == "transaction_id"@ && m[3].0 == "cycle_number"@ && m[6].0
            == "next_charge_at"@);
        lemma_member_found(m, "transaction_id"@, 0, 2);
        lemma_member_found(m, "current_period_end"@, 0, 5);
        lemma_member_found(m, "amount_minor"@, 0, 7);
        lemma_member_found(m, "currency"@, 0, 8);
    } else {
        assert(m[0].0.len() == 15 && "consecutive_failures"@.len() == 20);
        lemma_member_found(m, "consecutive_failures"@, 0, 1);
    }
}

proof fn lemma_charges_kept(
    m: Map<Seq<char>, Transaction>,
    attempts: Seq<RenewalAttempt>,
    production: bool,
    i: int,
    n: int,
)
    requires
        0 <= i < n <= attempts.len(),
        attempt_error(attempts[i], production) is None,
        forall|j: int|
            i < j < n && attempt_error(attempts[j], production) is None ==> (
            #[trigger] attempts[j]).charge->Ok_0.0.id@ != attempts[i].charge->Ok_0.0.id@,
    ensures
        ({
            let (t, reply) = attempts[i].charge->Ok_0;
            let all = with_charges(m, attempts, production, n);
            all.contains_key(t.id@) && all[t.id@] == with_order(t, reply_order_id(reply))
        }),
    decreases n,
{
    if i < n - 1 {
        lemma_charges_kept(m, attempts, production, i, n - 1);
    }
}

/// Every charge that succeeded is kept under its id, with the order of the engine, unless a
/// later one took that id.
pub proof fn law_successful_charges_are_kept(
    before: IcpService,
    after: IcpService,
    attempts: Seq<RenewalAttempt>,
    now: Timestamp,
    report: SchedulerTickReport,
    events: Seq<TenantEvent>,
    i: int,
)
    requires
        ticked(before, after, attempts, now, report, events),
        0 <= i < attempts.len(),
        attempts[i].charge is Ok,
        before.config.production ==> attempts[i].charge->Ok_0.1 is Persisted,
        forall|j: int|
            i < j < attempts.len() && (#[trigger] attempts[j]).charge is Ok
                ==> attempts[j].charge->Ok_0.0.id@ != attempts[i].charge->Ok_0.0.id@,
    ensures
        ({
            let (t, reply) = attempts[i].charge->Ok_0;
            let kept = after.transactions@[t.id@];
            &&& after.transactions@.contains_key(t.id@)
            &&& kept.totals == t.totals && kept.line_items == t.line_items && kept.state == t.state
                && kept.tenant_id == t.tenant_id
            &&& reply matches EngineReply::Persisted(p) ==> kept.order_id == Some(p.id)
            &&& !(reply is Persisted) ==> kept.order_id is None
        }),
{
    lemma_charges_kept(
        before.transactions@,
        attempts,
        before.config.production,
        i,
        attempts.len() as int,
    );
}

proof fn lemma_renewals_prefix(
    a: Seq<RenewalAttempt>,
    b: Seq<RenewalAttempt>,
    m: Map<Seq<char>, Subscription>,
    production: bool,
    schedule: Seq<u32>,
    n: int,
)
    requires
        0 <= n <= a.len() <= b.len(),
        forall|i: int| 0 <= i < a.len() ==> a[i] == b[i],
    ensures
        renewals(a, production, n) == renewals(b, production, n),
        events_of(a, m, production, schedule, n) == events_of(b, m, production, schedule, n),
    decreases n,
{
    if n > 0 {
        lemma_renewals_prefix(a, b, m, production, schedule, n - 1);
    }
}

/// The report of a tick counts each attempt once: as renewed when there was a charge that the
/// engine kept where it must, and as past due with the failure that is one too many.
pub proof fn law_reports_count_each_attempt(
    attempts: Seq<RenewalAttempt>,
    a: RenewalAttempt,
    m: Map<Seq<char>, Subscription>,
    production: bool,
    schedule: Seq<u32>,
)
    requires
        m[a.subscription_id@].failed_renewal_attempts < u32::MAX,
        schedule.len() < u32::MAX,
    ensures
        ({
            let n = attempts.len() as int;
            let all = attempts.push(a);
            let good = a.charge is Ok && (production ==> a.charge->Ok_0.1 is Persisted);
            let failures = m[a.subscription_id@].failed_renewal_attempts + 1;
            let last = if schedule.len() == 0 {
                3
            } else {
                schedule.len() + 1
            };
            let lost = !good && failures >= last;
            &&& renewals(all, production, n + 1) == renewals(attempts, production, n) + (if good {
                1int
            } else {
                0int
            })
            &&& events_of(all, m, production, schedule, n + 1) == events_of(
                attempts,
                m,
                production,
                schedule,
                n,
            ) + (if good || lost {
                1int
            } else {
                0int
            })
            &&& renewals(Seq::empty(), production, 0) == 0 && events_of(
                Seq::empty(),
                m,
                production,
                schedule,
                0,
            ) == 0
        }),
{
    let all = attempts.push(a);
    lemma_renewals_prefix(attempts, all, m, production, schedule, attempts.len() as int);
    assert(all[attempts.len() as int] == a);
}

/// What a tick reports is what became of its attempts.
pub proof fn law_reports_tell_what_became_of_the_attempts(
    before: IcpService,
    after: IcpService,
    attempts: Seq<RenewalAttempt>,
    now: Timestamp,
    report: SchedulerTickReport,
    events: Seq<TenantEvent>,
)
    requires
        ticked(before, after, attempts, now, report, events),
    ensures
        ({
            let n = attempts.len() as int;
            let production = before.config.production;
            let schedule = before.config.subscription_dunning_schedule_hours@;
            &&& report.due == n && report.scanned == before.subscriptions@.dom().len()
            &&& report.renewed == renewals(attempts, production, n)
            &&& report.renewed + report.failed == n
            &&& report.renewed + report.past_due == events_of(
                attempts,
                before.subscriptions@,
                production,
                schedule,
                n,
            )
            &&& events.len() == report.renewed + report.past_due
        }),
{
}

} // verus!
