//! Reads of the state, each as the tenant that asks. To any other tenant a row
//! does not exist, so ids cannot be probed across tenants.

use vstd::prelude::*;

use crate::errors::{ApiError, ErrorView};
use crate::listing::{page, page_limit, page_of, page_size, smaller};
use crate::mandate::{readable_by, usage_of, MandateUsage};
use crate::models::{
    IntentResponseBody, PeerQuote, PeerQuoteStatus, Subscription, SubscriptionStatus, Transaction,
    TransactionState,
};
use crate::receipts::{at_most, newest_first, StoredReceipt};
use crate::service::dispatch::sealed;
use crate::service::helpers::{
    missing, owns_peer_quote, owns_subscription, owns_transaction, peer_quote_for_tenant,
    subscription_for_tenant, transaction_for_tenant,
};
use crate::service::IcpService;
use crate::signing::ReceiptClaims;
use crate::table::{lemma_picked, picked, Table};
use crate::text::{join3, opt_text, str_eq, string_views};
use crate::time::Timestamp;

verus! {

// ---------------------------------------------------------------------------
// Transactions
// ---------------------------------------------------------------------------

/// Which transactions are listed.
#[derive(Debug)]
pub struct ListTransactionsQuery {
    /// One of `draft|quoted|authorized|captured|fulfilled|completed|reversed|canceled|expired`; all of them when absent or empty.
    pub state: Option<String>,
    /// Size of the page, a hundred by default and at most five hundred.
    pub limit: Option<usize>,
}

/// The error for a filter that names nothing.
pub open spec fn transaction_filter_error(s: Seq<char>) -> ErrorView {
    ErrorView::InvalidRequest(
        "unknown state filter '"@ + s
            + "' — expected one of draft|quoted|authorized|captured|fulfilled|completed|reversed|canceled|expired"@,
    )
}

/// The state that a filter names.
pub fn parse_transaction_state_filter(s: &str) -> (r: Result<TransactionState, ApiError>)
    ensures
        match r {
            Ok(v) => v.name() == s@,
            Err(e) => (forall|v: TransactionState| #[trigger] v.name() != s@) && e@
                == transaction_filter_error(s@),
        },
{
    if str_eq(s, "draft") {
        Ok(TransactionState::Draft)
    } else if str_eq(s, "quoted") {
        Ok(TransactionState::Quoted)
    } else if str_eq(s, "authorized") {
        Ok(TransactionState::Authorized)
    } else if str_eq(s, "captured") {
        Ok(TransactionState::Captured)
    } else if str_eq(s, "fulfilled") {
        Ok(TransactionState::Fulfilled)
    } else if str_eq(s, "completed") {
        Ok(TransactionState::Completed)
    } else if str_eq(s, "reversed") {
        Ok(TransactionState::Reversed)
    } else if str_eq(s, "canceled") {
        Ok(TransactionState::Canceled)
    } else if str_eq(s, "expired") {
        Ok(TransactionState::Expired)
    } else {
        Err(
            ApiError::InvalidRequest(
                join3(
                    "unknown state filter '",
                    s,
                    "' — expected one of draft|quoted|authorized|captured|fulfilled|completed|reversed|canceled|expired",
                ),
            ),
        )
    }
}

/// Whether a row belongs to the tenant and passes the filter.
pub open spec fn transaction_listed(
    row: Transaction,
    tenant: Seq<char>,
    filter: Option<TransactionState>,
) -> bool {
    row.tenant_id@ == tenant && (filter matches Some(v) ==> row.state == v)
}

/// The rows of the tenant that pass the filter.
pub open spec fn transactions_listed(tenant: Seq<char>, filter: Option<TransactionState>) -> spec_fn(
    Transaction,
) -> bool {
    |row: Transaction| transaction_listed(row, tenant, filter)
}

/// The ids of the rows.
pub open spec fn transaction_ids(rows: Seq<Transaction>) -> Seq<Seq<char>> {
    rows.map_values(|row: Transaction| row.id@)
}

/// Whether the rows are the newest ones of the tenant that pass the filter,
/// newest first.
pub open spec fn transaction_page(
    rows: Seq<Transaction>,
    m: Table<Transaction>,
    tenant: Seq<char>,
    filter: Option<TransactionState>,
    limit: int,
) -> bool {
    &&& page_of(
        transaction_ids(rows),
        picked(m.seq(), transactions_listed(tenant, filter), m.seq().len() as int),
        |k: Seq<char>| m@[k].created_at@,
        limit,
    )
    &&& forall|k: Seq<char>| #[trigger]
        picked(m.seq(), transactions_listed(tenant, filter), m.seq().len() as int).contains(k)
            <==> m@.contains_key(k) && transaction_listed(m@[k], tenant, filter)
    &&& forall|i: int|
        0 <= i < rows.len() ==> m@.contains_key((#[trigger] rows[i]).id@) && rows[i].same_as(
            m@[rows[i].id@],
        ) && transaction_listed(rows[i], tenant, filter)
}

/// Whether a copy of the row under this key is shown, and it is to be listed.
spec fn shown_transaction(
    row: Transaction,
    m: Map<Seq<char>, Transaction>,
    key: Seq<char>,
    tenant: Seq<char>,
    filter: Option<TransactionState>,
) -> bool {
    m.contains_key(key) && row.same_as(m[key]) && transaction_listed(row, tenant, filter)
}

/// The newest transactions of a tenant that pass the filter, newest first.
pub fn list_transactions_for_tenant(
    m: &Table<Transaction>,
    tenant_id: &str,
    limit: usize,
    filter: Option<TransactionState>,
) -> (r: Vec<Transaction>)
    requires
        forall|k: Seq<char>| #[trigger] m@.contains_key(k) ==> m@[k].id@ == k,
    ensures
        transaction_page(r@, *m, tenant_id@, filter, limit as int),
{
    let n: usize = m.len();
    let mut keys: Vec<String> = Vec::new();
    let mut times: Vec<Timestamp> = Vec::new();
    let mut i: usize = 0;
    assert(string_views(keys@) =~= Seq::<Seq<char>>::empty());
    while i < n
        invariant
            i <= n == m.seq().len(),
            keys@.len() == times@.len(),
            string_views(keys@) == picked(
                m.seq(),
                transactions_listed(tenant_id@, filter),
                i as int,
            ),
            forall|j: int|
                0 <= j < keys@.len() ==> m@[(#[trigger] keys@[j])@].created_at@ == times@[j]@,
        decreases n - i,
    {
        let e = m.entry_at(i);
        let passes = match filter {
            Some(v) => e.value.state == v,
            None => true,
        };
        if passes && str_eq(e.value.tenant_id.as_str(), tenant_id) {
            let ghost before = keys@;
            keys.push(e.key.clone());
            times.push(e.value.created_at);
            assert(string_views(keys@) =~= string_views(before).push(e.key@));
        }
        i += 1;
    }
    proof {
        lemma_picked(m.seq(), transactions_listed(tenant_id@, filter));
    }
    let ghost time = |k: Seq<char>| m@[k].created_at@;
    let shown = page(&keys, &times, limit, Ghost(time));
    let mut out: Vec<Transaction> = Vec::new();
    let mut i: usize = 0;
    while i < shown.len()
        invariant
            i <= shown@.len(),
            out@.len() == i,
            m@ == crate::table::map_of(m.seq()),
            forall|k: Seq<char>| #[trigger] m@.contains_key(k) ==> m@[k].id@ == k,
            page_of(
                string_views(shown@),
                picked(
                    m.seq(),
                    transactions_listed(tenant_id@, filter),
                    m.seq().len() as int,
                ),
                time,
                limit as int,
            ),
            forall|k: Seq<char>| #[trigger]
                picked(
                    m.seq(),
                    transactions_listed(tenant_id@, filter),
                    m.seq().len() as int,
                ).contains(k) <==> m@.contains_key(k) && transactions_listed(tenant_id@, filter)(
                    m@[k],
                ),
            forall|j: int|
                0 <= j < i ==> #[trigger] shown_transaction(
                    out@[j],
                    m@,
                    shown@[j]@,
                    tenant_id@,
                    filter,
                ),
        decreases shown@.len() - i,
    {
        proof {
            let key = shown@[i as int]@;
            assert(string_views(shown@)[i as int] == key);
            assert(transactions_listed(tenant_id@, filter)(m@[key]));
            assert(m@.contains_key(key) && transaction_listed(m@[key], tenant_id@, filter));
        }
        let ghost before = out@;
        match m.get(shown[i].as_str()) {
            Some(row) => {
                out.push(row.clone());
            },
            None => {},
        }
        proof {
            assert forall|j: int| 0 <= j < i + 1 implies #[trigger] shown_transaction(
                out@[j],
                m@,
                shown@[j]@,
                tenant_id@,
                filter,
            ) by {
                if j < i {
                    assert(out@[j] == before[j]);
                } else {
                    assert(out@[j].same_as(m@[shown@[i as int]@]));
                }
            }
        }
        i += 1;
    }
    proof {
        assert forall|j: int| 0 <= j < out@.len() implies (#[trigger] out@[j]).id@ == shown@[j]@
            && m@.contains_key(out@[j].id@) && out@[j].same_as(m@[out@[j].id@])
            && transaction_listed(out@[j], tenant_id@, filter) by {
            assert(shown_transaction(out@[j], m@, shown@[j]@, tenant_id@, filter));
        }
        assert(transaction_ids(out@) =~= string_views(shown@));
        assert forall|k: Seq<char>| #[trigger]
            picked(m.seq(), transactions_listed(tenant_id@, filter), m.seq().len() as int).contains(
                k,
            ) <==> m@.contains_key(k) && transaction_listed(m@[k], tenant_id@, filter) by {
            assert(transactions_listed(tenant_id@, filter)(m@[k]) == transaction_listed(
                m@[k],
                tenant_id@,
                filter,
            ));
        }
    }
    out
}

impl IcpService {
    /// The newest transactions of a tenant, newest first. A filter that names
    /// nothing is refused.
    pub fn list_transactions(&self, tenant_id: &str, query: &ListTransactionsQuery) -> (r: Result<
        Vec<Transaction>,
        ApiError,
    >)
        requires
            self.wf(),
        ensures
            ({
                let wanted = match query.state {
                    Some(s) => s@,
                    None => Seq::empty(),
                };
                match r {
                    Ok(rows) => if wanted.len() == 0 {
                        transaction_page(
                            rows@,
                            self.transactions,
                            tenant_id@,
                            None,
                            page_size(query.limit),
                        )
                    } else {
                        exists|v: TransactionState|
                            #[trigger]
                            v.name() == wanted && transaction_page(
                                rows@,
                                self.transactions,
                                tenant_id@,
                                Some(v),
                                page_size(query.limit),
                            )
                    },
                    Err(e) => wanted.len() > 0 && (forall|v: TransactionState| #[trigger]
                        v.name() != wanted) && e@ == transaction_filter_error(wanted),
                }
            }),
    {
        let filter = match &query.state {
            None => None,
            Some(s) => if s.as_str().is_empty() {
                None
            } else {
                match parse_transaction_state_filter(s.as_str()) {
                    Ok(v) => {
                        assert(v.name() == s@);
                        Some(v)
                    },
                    Err(e) => {
                        return Err(e);
                    },
                }
            },
        };
        Ok(
            list_transactions_for_tenant(
                &self.transactions,
                tenant_id,
                page_limit(query.limit),
                filter,
            ),
        )
    }

    /// One transaction, for the tenant that owns it.
    pub fn get_transaction(&self, tenant_id: &str, id: &str) -> (r: Result<Transaction, ApiError>)
        ensures
            match r {
                Ok(row) => owns_transaction(self.transactions@, id@, tenant_id@) && row.same_as(
                    self.transactions@[id@],
                ),
                Err(e) => !owns_transaction(self.transactions@, id@, tenant_id@) && e@ == missing(
                    "transaction"@,
                    id@,
                ),
            },
    {
        match transaction_for_tenant(&self.transactions, id, tenant_id) {
            Ok(row) => Ok(row.clone()),
            Err(e) => Err(e),
        }
    }
}

// ---------------------------------------------------------------------------
// Subscriptions
// ---------------------------------------------------------------------------

/// Which subscriptions are listed.
#[derive(Debug)]
pub struct ListSubscriptionsQuery {
    /// One of `active|paused|canceled|past_due`; all of them when absent or empty.
    pub status: Option<String>,
    /// Size of the page, a hundred by default and at most five hundred.
    pub limit: Option<usize>,
}

/// The error for a filter that names nothing.
pub open spec fn subscription_filter_error(s: Seq<char>) -> ErrorView {
    ErrorView::InvalidRequest(
        "unknown status filter '"@ + s
            + "' — expected one of active|paused|canceled|past_due"@,
    )
}

/// Whether a filter can name the status: every one but a trial.
pub open spec fn filterable(v: SubscriptionStatus) -> bool {
    !(v is Trialing)
}

/// The status that a filter names.
pub fn parse_subscription_status_filter(s: &str) -> (r: Result<SubscriptionStatus, ApiError>)
    ensures
        match r {
            Ok(v) => filterable(v) && v.name() == s@,
            Err(e) => (forall|v: SubscriptionStatus|
                filterable(v) ==> #[trigger] v.name() != s@) && e@ == subscription_filter_error(s@),
        },
{
    if str_eq(s, "active") {
        Ok(SubscriptionStatus::Active)
    } else if str_eq(s, "paused") {
        Ok(SubscriptionStatus::Paused)
    } else if str_eq(s, "canceled") {
        Ok(SubscriptionStatus::Canceled)
    } else if str_eq(s, "past_due") {
        Ok(SubscriptionStatus::PastDue)
    } else {
        Err(
            ApiError::InvalidRequest(
                join3(
                    "unknown status filter '",
                    s,
                    "' — expected one of active|paused|canceled|past_due",
                ),
            ),
        )
    }
}

/// Whether a row belongs to the tenant and passes the filter.
pub open spec fn subscription_listed(
    row: Subscription,
    tenant: Seq<char>,
    filter: Option<SubscriptionStatus>,
) -> bool {
    row.tenant_id@ == tenant && (filter matches Some(v) ==> row.status == v)
}

/// The rows of the tenant that pass the filter.
pub open spec fn subscriptions_listed(tenant: Seq<char>, filter: Option<SubscriptionStatus>) -> spec_fn(
    Subscription,
) -> bool {
    |row: Subscription| subscription_listed(row, tenant, filter)
}

/// The ids of the rows.
pub open spec fn subscription_ids(rows: Seq<Subscription>) -> Seq<Seq<char>> {
    rows.map_values(|row: Subscription| row.id@)
}

/// Whether the rows are the newest ones of the tenant that pass the filter,
/// newest first.
pub open spec fn subscription_page(
    rows: Seq<Subscription>,
    m: Table<Subscription>,
    tenant: Seq<char>,
    filter: Option<SubscriptionStatus>,
    limit: int,
) -> bool {
    &&& page_of(
        subscription_ids(rows),
        picked(m.seq(), subscriptions_listed(tenant, filter), m.seq().len() as int),
        |k: Seq<char>| m@[k].created_at@,
        limit,
    )
    &&& forall|k: Seq<char>| #[trigger]
        picked(m.seq(), subscriptions_listed(tenant, filter), m.seq().len() as int).contains(k)
            <==> m@.contains_key(k) && subscription_listed(m@[k], tenant, filter)
    &&& forall|i: int|
        0 <= i < rows.len() ==> m@.contains_key((#[trigger] rows[i]).id@) && rows[i].same_as(
            m@[rows[i].id@],
        ) && subscription_listed(rows[i], tenant, filter)
}

/// Whether a copy of the row under this key is shown, and it is to be listed.
spec fn shown_subscription(
    row: Subscription,
    m: Map<Seq<char>, Subscription>,
    key: Seq<char>,
    tenant: Seq<char>,
    filter: Option<SubscriptionStatus>,
) -> bool {
    m.contains_key(key) && row.same_as(m[key]) && subscription_listed(row, tenant, filter)
}

/// The newest subscriptions of a tenant that pass the filter, newest first.
pub fn list_subscriptions_for_tenant(
    m: &Table<Subscription>,
    tenant_id: &str,
    limit: usize,
    filter: Option<SubscriptionStatus>,
) -> (r: Vec<Subscription>)
    requires
        forall|k: Seq<char>| #[trigger] m@.contains_key(k) ==> m@[k].id@ == k,
    ensures
        subscription_page(r@, *m, tenant_id@, filter, limit as int),
{
    let n: usize = m.len();
    let mut keys: Vec<String> = Vec::new();
    let mut times: Vec<Timestamp> = Vec::new();
    let mut i: usize = 0;
    assert(string_views(keys@) =~= Seq::<Seq<char>>::empty());
    while i < n
        invariant
            i <= n == m.seq().len(),
            keys@.len() == times@.len(),
            string_views(keys@) == picked(
                m.seq(),
                subscriptions_listed(tenant_id@, filter),
                i as int,
            ),
            forall|j: int|
                0 <= j < keys@.len() ==> m@[(#[trigger] keys@[j])@].created_at@ == times@[j]@,
        decreases n - i,
    {
        let e = m.entry_at(i);
        let passes = match filter {
            Some(v) => e.value.status == v,
            None => true,
        };
        if passes && str_eq(e.value.tenant_id.as_str(), tenant_id) {
            let ghost before = keys@;
            keys.push(e.key.clone());
            times.push(e.value.created_at);
            assert(string_views(keys@) =~= string_views(before).push(e.key@));
        }
        i += 1;
    }
    proof {
        lemma_picked(m.seq(), subscriptions_listed(tenant_id@, filter));
    }
    let ghost time = |k: Seq<char>| m@[k].created_at@;
    let shown = page(&keys, &times, limit, Ghost(time));
    let mut out: Vec<Subscription> = Vec::new();
    let mut i: usize = 0;
    while i < shown.len()
        invariant
            i <= shown@.len(),
            out@.len() == i,
            m@ == crate::table::map_of(m.seq()),
            forall|k: Seq<char>| #[trigger] m@.contains_key(k) ==> m@[k].id@ == k,
            page_of(
                string_views(shown@),
                picked(
                    m.seq(),
                    subscriptions_listed(tenant_id@, filter),
                    m.seq().len() as int,
                ),
                time,
                limit as int,
            ),
            forall|k: Seq<char>| #[trigger]
                picked(
                    m.seq(),
                    subscriptions_listed(tenant_id@, filter),
                    m.seq().len() as int,
                ).contains(k) <==> m@.contains_key(k) && subscriptions_listed(tenant_id@, filter)(
                    m@[k],
                ),
            forall|j: int|
                0 <= j < i ==> #[trigger] shown_subscription(
                    out@[j],
                    m@,
                    shown@[j]@,
                    tenant_id@,
                    filter,
                ),
        decreases shown@.len() - i,
    {
        proof {
            let key = shown@[i as int]@;
            assert(string_views(shown@)[i as int] == key);
            assert(subscriptions_listed(tenant_id@, filter)(m@[key]));
            assert(m@.contains_key(key) && subscription_listed(m@[key], tenant_id@, filter));
        }
        let ghost before = out@;
        match m.get(shown[i].as_str()) {
            Some(row) => {
                out.push(row.clone());
            },
            None => {},
        }
        proof {
            assert forall|j: int| 0 <= j < i + 1 implies #[trigger] shown_subscription(
                out@[j],
                m@,
                shown@[j]@,
                tenant_id@,
                filter,
            ) by {
                if j < i {
                    assert(out@[j] == before[j]);
                } else {
                    assert(out@[j].same_as(m@[shown@[i as int]@]));
                }
            }
        }
        i += 1;
    }
    proof {
        assert forall|j: int| 0 <= j < out@.len() implies (#[trigger] out@[j]).id@ == shown@[j]@
            && m@.contains_key(out@[j].id@) && out@[j].same_as(m@[out@[j].id@])
            && subscription_listed(out@[j], tenant_id@, filter) by {
            assert(shown_subscription(out@[j], m@, shown@[j]@, tenant_id@, filter));
        }
        assert(subscription_ids(out@) =~= string_views(shown@));
        assert forall|k: Seq<char>| #[trigger]
            picked(m.seq(), subscriptions_listed(tenant_id@, filter), m.seq().len() as int).contains(
                k,
            ) <==> m@.contains_key(k) && subscription_listed(m@[k], tenant_id@, filter) by {
            assert(subscriptions_listed(tenant_id@, filter)(m@[k]) == subscription_listed(
                m@[k],
                tenant_id@,
                filter,
            ));
        }
    }
    out
}

impl IcpService {
    /// The newest subscriptions of a tenant, newest first. A filter that names
    /// nothing is refused.
    pub fn list_subscriptions(&self, tenant_id: &str, query: &ListSubscriptionsQuery) -> (r: Result<
        Vec<Subscription>,
        ApiError,
    >)
        requires
            self.wf(),
        ensures
            ({
                let wanted = match query.status {
                    Some(s) => s@,
                    None => Seq::empty(),
                };
                match r {
                    Ok(rows) => if wanted.len() == 0 {
                        subscription_page(
                            rows@,
                            self.subscriptions,
                            tenant_id@,
                            None,
                            page_size(query.limit),
                        )
                    } else {
                        exists|v: SubscriptionStatus|
                            filterable(v) && #[trigger] v.name() == wanted && subscription_page(
                                rows@,
                                self.subscriptions,
                                tenant_id@,
                                Some(v),
                                page_size(query.limit),
                            )
                    },
                    Err(e) => wanted.len() > 0 && (forall|v: SubscriptionStatus|
                        filterable(v) ==> #[trigger] v.name() != wanted) && e@
                        == subscription_filter_error(wanted),
                }
            }),
    {
        let filter = match &query.status {
            None => None,
            Some(s) => if s.as_str().is_empty() {
                None
            } else {
                match parse_subscription_status_filter(s.as_str()) {
                    Ok(v) => {
                        assert(v.name() == s@);
                        Some(v)
                    },
                    Err(e) => {
                        return Err(e);
                    },
                }
            },
        };
        Ok(
            list_subscriptions_for_tenant(
                &self.subscriptions,
                tenant_id,
                page_limit(query.limit),
                filter,
            ),
        )
    }

    /// One subscription, for the tenant that owns it.
    pub fn get_subscription(&self, tenant_id: &str, id: &str) -> (r: Result<Subscription, ApiError>)
        ensures
            match r {
                Ok(row) => owns_subscription(self.subscriptions@, id@, tenant_id@) && row.same_as(
                    self.subscriptions@[id@],
                ),
                Err(e) => !owns_subscription(self.subscriptions@, id@, tenant_id@) && e@ == missing(
                    "subscription"@,
                    id@,
                ),
            },
    {
        match subscription_for_tenant(&self.subscriptions, id, tenant_id) {
            Ok(row) => Ok(row.clone()),
            Err(e) => Err(e),
        }
    }
}

// ---------------------------------------------------------------------------
// Quotes between agents
// ---------------------------------------------------------------------------

/// Which quotes between agents are listed.
#[derive(Debug)]
pub struct ListPeerQuotesQuery {
    /// One of `pending|quoted|accepted|expired|rejected`; all of them when absent or empty.
    pub status: Option<String>,
    /// Size of the page, a hundred by default and at most five hundred.
    pub limit: Option<usize>,
}

/// The error for a filter that names nothing.
pub open spec fn peer_quote_filter_error(s: Seq<char>) -> ErrorView {
    ErrorView::InvalidRequest(
        "unknown status filter '"@ + s
            + "' — expected one of pending|quoted|accepted|expired|rejected"@,
    )
}

/// The status that a filter names.
pub fn parse_peer_quote_status_filter(s: &str) -> (r: Result<PeerQuoteStatus, ApiError>)
    ensures
        match r {
            Ok(v) => v.name() == s@,
            Err(e) => (forall|v: PeerQuoteStatus| #[trigger] v.name() != s@) && e@
                == peer_quote_filter_error(s@),
        },
{
    if str_eq(s, "pending") {
        Ok(PeerQuoteStatus::Pending)
    } else if str_eq(s, "quoted") {
        Ok(PeerQuoteStatus::Quoted)
    } else if str_eq(s, "accepted") {
        Ok(PeerQuoteStatus::Accepted)
    } else if str_eq(s, "expired") {
        Ok(PeerQuoteStatus::Expired)
    } else if str_eq(s, "rejected") {
        Ok(PeerQuoteStatus::Rejected)
    } else {
        Err(
            ApiError::InvalidRequest(
                join3(
                    "unknown status filter '",
                    s,
                    "' — expected one of pending|quoted|accepted|expired|rejected",
                ),
            ),
        )
    }
}

/// Whether a row belongs to the tenant and passes the filter.
pub open spec fn peer_quote_listed(
    row: PeerQuote,
    tenant: Seq<char>,
    filter: Option<PeerQuoteStatus>,
) -> bool {
    row.tenant_id@ == tenant && (filter matches Some(v) ==> row.status == v)
}

/// The rows of the tenant that pass the filter.
pub open spec fn peer_quotes_listed(tenant: Seq<char>, filter: Option<PeerQuoteStatus>) -> spec_fn(
    PeerQuote,
) -> bool {
    |row: PeerQuote| peer_quote_listed(row, tenant, filter)
}

/// The ids of the rows.
pub open spec fn peer_quote_ids(rows: Seq<PeerQuote>) -> Seq<Seq<char>> {
    rows.map_values(|row: PeerQuote| row.id@)
}

/// Whether the rows are the newest ones of the tenant that pass the filter,
/// newest first.
pub open spec fn peer_quote_page(
    rows: Seq<PeerQuote>,
    m: Table<PeerQuote>,
    tenant: Seq<char>,
    filter: Option<PeerQuoteStatus>,
    limit: int,
) -> bool {
    &&& page_of(
        peer_quote_ids(rows),
        picked(m.seq(), peer_quotes_listed(tenant, filter), m.seq().len() as int),
        |k: Seq<char>| m@[k].created_at@,
        limit,
    )
    &&& forall|k: Seq<char>| #[trigger]
        picked(m.seq(), peer_quotes_listed(tenant, filter), m.seq().len() as int).contains(k)
            <==> m@.contains_key(k) && peer_quote_listed(m@[k], tenant, filter)
    &&& forall|i: int|
        0 <= i < rows.len() ==> m@.contains_key((#[trigger] rows[i]).id@) && rows[i].same_as(
            m@[rows[i].id@],
        ) && peer_quote_listed(rows[i], tenant, filter)
}

/// Whether a copy of the row under this key is shown, and it is to be listed.
spec fn shown_peer_quote(
    row: PeerQuote,
    m: Map<Seq<char>, PeerQuote>,
    key: Seq<char>,
    tenant: Seq<char>,
    filter: Option<PeerQuoteStatus>,
) -> bool {
    m.contains_key(key) && row.same_as(m[key]) && peer_quote_listed(row, tenant, filter)
}

/// The newest quotes between agents of a tenant that pass the filter, newest first.
pub fn list_peer_quotes_for_tenant(
    m: &Table<PeerQuote>,
    tenant_id: &str,
    limit: usize,
    filter: Option<PeerQuoteStatus>,
) -> (r: Vec<PeerQuote>)
    requires
        forall|k: Seq<char>| #[trigger] m@.contains_key(k) ==> m@[k].id@ == k,
    ensures
        peer_quote_page(r@, *m, tenant_id@, filter, limit as int),
{
    let n: usize = m.len();
    let mut keys: Vec<String> = Vec::new();
    let mut times: Vec<Timestamp> = Vec::new();
    let mut i: usize = 0;
    assert(string_views(keys@) =~= Seq::<Seq<char>>::empty());
    while i < n
        invariant
            i <= n == m.seq().len(),
            keys@.len() == times@.len(),
            string_views(keys@) == picked(
                m.seq(),
                peer_quotes_listed(tenant_id@, filter),
                i as int,
            ),
            forall|j: int|
                0 <= j < keys@.len() ==> m@[(#[trigger] keys@[j])@].created_at@ == times@[j]@,
        decreases n - i,
    {
        let e = m.entry_at(i);
        let passes = match filter {
            Some(v) => e.value.status == v,
            None => true,
        };
        if passes && str_eq(e.value.tenant_id.as_str(), tenant_id) {
            let ghost before = keys@;
            keys.push(e.key.clone());
            times.push(e.value.created_at);
            assert(string_views(keys@) =~= string_views(before).push(e.key@));
        }
        i += 1;
    }
    proof {
        lemma_picked(m.seq(), peer_quotes_listed(tenant_id@, filter));
    }
    let ghost time = |k: Seq<char>| m@[k].created_at@;
    let shown = page(&keys, &times, limit, Ghost(time));
    let mut out: Vec<PeerQuote> = Vec::new();
    let mut i: usize = 0;
    while i < shown.len()
        invariant
            i <= shown@.len(),
            out@.len() == i,
            m@ == crate::table::map_of(m.seq()),
            forall|k: Seq<char>| #[trigger] m@.contains_key(k) ==> m@[k].id@ == k,
            page_of(
                string_views(shown@),
                picked(
                    m.seq(),
                    peer_quotes_listed(tenant_id@, filter),
                    m.seq().len() as int,
                ),
                time,
                limit as int,
            ),
            forall|k: Seq<char>| #[trigger]
                picked(
                    m.seq(),
                    peer_quotes_listed(tenant_id@, filter),
                    m.seq().len() as int,
                ).contains(k) <==> m@.contains_key(k) && peer_quotes_listed(tenant_id@, filter)(
                    m@[k],
                ),
            forall|j: int|
                0 <= j < i ==> #[trigger] shown_peer_quote(
                    out@[j],
                    m@,
                    shown@[j]@,
                    tenant_id@,
                    filter,
                ),
        decreases shown@.len() - i,
    {
        proof {
            let key = shown@[i as int]@;
            assert(string_views(shown@)[i as int] == key);
            assert(peer_quotes_listed(tenant_id@, filter)(m@[key]));
            assert(m@.contains_key(key) && peer_quote_listed(m@[key], tenant_id@, filter));
        }
        let ghost before = out@;
        match m.get(shown[i].as_str()) {
            Some(row) => {
                out.push(row.clone());
            },
            None => {},
        }
        proof {
            assert forall|j: int| 0 <= j < i + 1 implies #[trigger] shown_peer_quote(
                out@[j],
                m@,
                shown@[j]@,
                tenant_id@,
                filter,
            ) by {
                if j < i {
                    assert(out@[j] == before[j]);
                } else {
                    assert(out@[j].same_as(m@[shown@[i as int]@]));
                }
            }
        }
        i += 1;
    }
    proof {
        assert forall|j: int| 0 <= j < out@.len() implies (#[trigger] out@[j]).id@ == shown@[j]@
            && m@.contains_key(out@[j].id@) && out@[j].same_as(m@[out@[j].id@])
            && peer_quote_listed(out@[j], tenant_id@, filter) by {
            assert(shown_peer_quote(out@[j], m@, shown@[j]@, tenant_id@, filter));
        }
        assert(peer_quote_ids(out@) =~= string_views(shown@));
        assert forall|k: Seq<char>| #[trigger]
            picked(m.seq(), peer_quotes_listed(tenant_id@, filter), m.seq().len() as int).contains(
                k,
            ) <==> m@.contains_key(k) && peer_quote_listed(m@[k], tenant_id@, filter) by {
            assert(peer_quotes_listed(tenant_id@, filter)(m@[k]) == peer_quote_listed(
                m@[k],
                tenant_id@,
                filter,
            ));
        }
    }
    out
}

impl IcpService {
    /// The newest quotes between agents of a tenant, newest first. A filter that names
    /// nothing is refused.
    pub fn list_peer_quotes(&self, tenant_id: &str, query: &ListPeerQuotesQuery) -> (r: Result<
        Vec<PeerQuote>,
        ApiError,
    >)
        requires
            self.wf(),
        ensures
            ({
                let wanted = match query.status {
                    Some(s) => s@,
                    None => Seq::empty(),
                };
                match r {
                    Ok(rows) => if wanted.len() == 0 {
                        peer_quote_page(
                            rows@,
                            self.peer_quotes,
                            tenant_id@,
                            None,
                            page_size(query.limit),
                        )
                    } else {
                        exists|v: PeerQuoteStatus|
                            #[trigger]
                            v.name() == wanted && peer_quote_page(
                                rows@,
                                self.peer_quotes,
                                tenant_id@,
                                Some(v),
                                page_size(query.limit),
                            )
                    },
                    Err(e) => wanted.len() > 0 && (forall|v: PeerQuoteStatus| #[trigger]
                        v.name() != wanted) && e@ == peer_quote_filter_error(wanted),
                }
            }),
    {
        let filter = match &query.status {
            None => None,
            Some(s) => if s.as_str().is_empty() {
                None
            } else {
                match parse_peer_quote_status_filter(s.as_str()) {
                    Ok(v) => {
                        assert(v.name() == s@);
                        Some(v)
                    },
                    Err(e) => {
                        return Err(e);
                    },
                }
            },
        };
        Ok(
            list_peer_quotes_for_tenant(
                &self.peer_quotes,
                tenant_id,
                page_limit(query.limit),
                filter,
            ),
        )
    }

    /// One quote between agents, for the tenant that owns it.
    pub fn get_peer_quote(&self, tenant_id: &str, id: &str) -> (r: Result<PeerQuote, ApiError>)
        ensures
            match r {
                Ok(row) => owns_peer_quote(self.peer_quotes@, id@, tenant_id@) && row.same_as(
                    self.peer_quotes@[id@],
                ),
                Err(e) => !owns_peer_quote(self.peer_quotes@, id@, tenant_id@) && e@ == missing(
                    "peer_quote"@,
                    id@,
                ),
            },
    {
        match peer_quote_for_tenant(&self.peer_quotes, id, tenant_id) {
            Ok(row) => Ok(row.clone()),
            Err(e) => Err(e),
        }
    }
}

// ---------------------------------------------------------------------------
// Receipts
// ---------------------------------------------------------------------------

/// Which receipts are listed.
#[derive(Debug)]
pub struct ListReceiptsQuery {
    /// Only receipts of this intent, such as `intent.buy`.
    pub intent: Option<String>,
    /// Size of the page, a hundred by default and at most five hundred.
    pub limit: Option<usize>,
}

/// Whether a receipt belongs to the tenant: the transaction that it was signed
/// over does.
pub open spec fn receipt_of_tenant(
    r: StoredReceipt,
    m: Map<Seq<char>, Transaction>,
    tenant: Seq<char>,
) -> bool {
    owns_transaction(m, r.claims.icp.transaction_id@, tenant)
}

/// What a tenant finds under the id of a receipt.
pub open spec fn receipt_found(
    service: IcpService,
    tenant: Seq<char>,
    jti: Seq<char>,
    r: Result<StoredReceipt, ApiError>,
) -> bool {
    let visible = service.receipts@.contains_key(jti) && receipt_of_tenant(
        service.receipts@[jti],
        service.transactions@,
        tenant,
    );
    match r {
        Ok(x) => visible && x == service.receipts@[jti],
        Err(e) => !visible && e@ == missing("receipt"@, jti),
    }
}

/// Whether a receipt is of the wanted intent and belongs to the tenant.
pub open spec fn receipt_listed(
    r: StoredReceipt,
    m: Map<Seq<char>, Transaction>,
    tenant: Seq<char>,
    intent: Option<Seq<char>>,
) -> bool {
    (intent matches Some(want) ==> r.claims.icp.intent@ == want) && receipt_of_tenant(r, m, tenant)
}

/// The receipts among the first `n` that are listed, in order.
pub open spec fn receipts_listed(
    s: Seq<StoredReceipt>,
    m: Map<Seq<char>, Transaction>,
    tenant: Seq<char>,
    intent: Option<Seq<char>>,
    n: int,
) -> Seq<StoredReceipt>
    decreases n,
{
    if n <= 0 {
        Seq::empty()
    } else {
        let before = receipts_listed(s, m, tenant, intent, n - 1);
        if receipt_listed(s[n - 1], m, tenant, intent) {
            before.push(s[n - 1])
        } else {
            before
        }
    }
}

/// How many of the newest receipts are looked at for a page: three times its
/// size, since receipts of other tenants are passed over.
pub open spec fn scan_size(limit: int) -> int {
    smaller(limit * 3, 1_500)
}

impl IcpService {
    fn receipt_is_listed(&self, r: &StoredReceipt, tenant_id: &str, intent: &Option<String>) -> (b:
        bool)
        ensures
            b == receipt_listed(*r, self.transactions@, tenant_id@, opt_text(*intent)),
    {
        let wanted = match intent {
            Some(want) => str_eq(r.claims.icp.intent.as_str(), want.as_str()),
            None => true,
        };
        wanted && match self.transactions.get(r.claims.icp.transaction_id.as_str()) {
            Some(t) => str_eq(t.tenant_id.as_str(), tenant_id),
            None => false,
        }
    }

    /// The newest receipts of a tenant, newest first: those among the newest of
    /// all that are its own, up to the size of the page.
    pub fn list_receipts(&self, tenant_id: &str, query: &ListReceiptsQuery) -> (r: Vec<
        StoredReceipt,
    >)
        ensures
            exists|all: Seq<StoredReceipt>| #[trigger]
                all.to_multiset() == self.receipts.all().to_multiset() && newest_first(all) && ({
                    let scanned = at_most(all, scan_size(page_size(query.limit)));
                    r@ == at_most(
                        receipts_listed(
                            scanned,
                            self.transactions@,
                            tenant_id@,
                            opt_text(query.intent),
                            scanned.len() as int,
                        ),
                        page_size(query.limit),
                    )
                }),
    {
        let limit: usize = page_limit(query.limit);
        let scan: usize = if limit * 3 <= 1_500 {
            limit * 3
        } else {
            1_500
        };
        let recent = self.receipts.list_recent(scan);
        let ghost all = choose|all: Seq<StoredReceipt>| #[trigger]
            all.to_multiset() == self.receipts.all().to_multiset() && newest_first(all) && recent@
                == at_most(all, scan as int);
        let ghost intent = opt_text(query.intent);
        let mut out: Vec<StoredReceipt> = Vec::new();
        let mut i: usize = 0;
        while i < recent.len()
            invariant
                i <= recent@.len(),
                limit == page_size(query.limit),
                intent == opt_text(query.intent),
                out@ == at_most(
                    receipts_listed(recent@, self.transactions@, tenant_id@, intent, i as int),
                    limit as int,
                ),
            decreases recent@.len() - i,
        {
            let ghost before = receipts_listed(
                recent@,
                self.transactions@,
                tenant_id@,
                intent,
                i as int,
            );
            if self.receipt_is_listed(&recent[i], tenant_id, &query.intent) {
                if out.len() < limit {
                    out.push(recent[i].clone());
                    assert(out@ =~= at_most(before.push(recent@[i as int]), limit as int));
                } else {
                    assert(out@ =~= at_most(before.push(recent@[i as int]), limit as int));
                }
            }
            i += 1;
        }
        out
    }

    /// One receipt, for the tenant that owns the transaction behind it.
    pub fn get_receipt(&self, tenant_id: &str, jti: &str) -> (r: Result<StoredReceipt, ApiError>)
        ensures
            receipt_found(*self, tenant_id@, jti@, r),
    {
        match self.receipts.get(jti) {
            Some(x) => match self.transactions.get(x.claims.icp.transaction_id.as_str()) {
                Some(t) => if str_eq(t.tenant_id.as_str(), tenant_id) {
                    Ok(x)
                } else {
                    Err(ApiError::ResourceNotFound(join3("receipt", " ", jti)))
                },
                None => Err(ApiError::ResourceNotFound(join3("receipt", " ", jti))),
            },
            None => Err(ApiError::ResourceNotFound(join3("receipt", " ", jti))),
        }
    }

    /// What was spent under a mandate, for the tenant that spent first under it.
    pub fn get_mandate_usage(&self, tenant_id: &str, jti: &str) -> (r: Result<
        MandateUsage,
        ApiError,
    >)
        ensures
            match r {
                Ok(u) => readable_by(usage_of(self.mandates@, jti@), tenant_id@) && u@ == usage_of(
                    self.mandates@,
                    jti@,
                ),
                Err(e) => !readable_by(usage_of(self.mandates@, jti@), tenant_id@) && e@ == missing(
                    "mandate_usage"@,
                    jti@,
                ),
            },
    {
        match self.mandates.try_usage_for_tenant(jti, tenant_id) {
            Ok(Some(u)) => Ok(u),
            _ => Err(ApiError::ResourceNotFound(join3("mandate_usage", " ", jti))),
        }
    }
}

// ---------------------------------------------------------------------------
// Laws
// ---------------------------------------------------------------------------

/// A filter is the name on the wire, and no two states or statuses share one:
/// what a filter lists is determined by its text.
pub proof fn law_filters_are_wire_names(
    a: TransactionState,
    b: TransactionState,
    c: SubscriptionStatus,
    d: SubscriptionStatus,
    e: PeerQuoteStatus,
    f: PeerQuoteStatus,
)
    ensures
        a.name() == b.name() <==> a == b,
        c.name() == d.name() <==> c == d,
        e.name() == f.name() <==> e == f,
{
    reveal_strlit("draft");
    reveal_strlit("quoted");
    reveal_strlit("authorized");
    reveal_strlit("captured");
    reveal_strlit("fulfilled");
    reveal_strlit("completed");
    reveal_strlit("reversed");
    reveal_strlit("canceled");
    reveal_strlit("expired");
    reveal_strlit("trialing");
    reveal_strlit("active");
    reveal_strlit("paused");
    reveal_strlit("past_due");
    reveal_strlit("pending");
    reveal_strlit("accepted");
    reveal_strlit("rejected");
    assert("draft"@.len() == 5 && "quoted"@.len() == 6 && "expired"@.len() == 7);
    assert("authorized"@.len() == 10 && "captured"@.len() == 8 && "fulfilled"@.len() == 9);
    assert("trialing"@.len() == 8 && "active"@.len() == 6 && "paused"@.len() == 6);
    assert("canceled"@.len() == 8 && "past_due"@.len() == 8);
    assert("captured"@[2] == 'p' && "reversed"@[2] == 'v' && "canceled"@[2] == 'n');
    assert("fulfilled"@[0] == 'f' && "completed"@[0] == 'c');
    assert("trialing"@[0] == 't' && "canceled"@[0] == 'c' && "past_due"@[0] == 'p');
    assert("active"@[0] == 'a' && "paused"@[0] == 'p');
    assert("pending"@[0] == 'p' && "expired"@[0] == 'e');
    assert("accepted"@[0] == 'a' && "rejected"@[0] == 'r');
}

/// A response that was sealed can be asked for again: its receipt is found under its id,
/// by the tenant that owns the transaction, and it is the one that stands in the
/// response.
pub proof fn law_sealed_receipts_are_found(
    before: IcpService,
    after: IcpService,
    body: IntentResponseBody,
    claims: ReceiptClaims,
    answer: IntentResponseBody,
    tenant: Seq<char>,
    r: Result<StoredReceipt, ApiError>,
)
    requires
        sealed(before, after, body, claims, answer),
        owns_transaction(after.transactions@, claims.icp.transaction_id@, tenant),
        receipt_found(after, tenant, answer.receipt.jti@, r),
    ensures
        r matches Ok(x) && x.claims == claims && x.jws == answer.receipt.jws && x.kid
            == answer.receipt.kid && x.body_digest == answer.receipt.body_digest,
{
}

/// No page holds a row of another tenant.
pub proof fn law_pages_stay_within_the_tenant(
    rows: Seq<Transaction>,
    m: Table<Transaction>,
    tenant: Seq<char>,
    filter: Option<TransactionState>,
    limit: int,
    i: int,
)
    requires
        transaction_page(rows, m, tenant, filter, limit),
        0 <= i < rows.len(),
    ensures
        rows[i].tenant_id@ == tenant,
        rows.len() <= limit,
{
}

/// A page shows transactions of the tenant that pass the filter, each as it is kept and once, newest
/// first, and leaves out none of them that is newer than one it shows, nor any at all while
/// it has room.
pub proof fn law_transaction_pages_are_the_newest(
    rows: Seq<Transaction>,
    m: Table<Transaction>,
    tenant: Seq<char>,
    filter: Option<TransactionState>,
    limit: int,
    k: Seq<char>,
)
    requires
        transaction_page(rows, m, tenant, filter, limit),
        0 <= limit,
    ensures
        rows.len() <= limit,
        forall|i: int|
            0 <= i < rows.len() ==> {
                let row = #[trigger] rows[i];
                &&& m@.contains_key(row.id@) && row.same_as(m@[row.id@])
                &&& row.tenant_id@ == tenant && (filter matches Some(v) ==> row.state == v)
            },
        forall|i: int, j: int|
            0 <= i < j < rows.len() ==> (#[trigger] rows[i]).id@ != (#[trigger] rows[j]).id@
                && rows[i].created_at@ >= rows[j].created_at@,
        m@.contains_key(k) && m@[k].tenant_id@ == tenant && (filter matches Some(v) ==> m@[k].state
            == v) && (forall|i: int| 0 <= i < rows.len() ==> (#[trigger] rows[i]).id@ != k) ==> {
            &&& rows.len() == limit
            &&& forall|i: int|
                0 <= i < rows.len() ==> m@[k].created_at@ <= (#[trigger] rows[i]).created_at@
        },
{
    let ids = transaction_ids(rows);
    let all = picked(m.seq(), transactions_listed(tenant, filter), m.seq().len() as int);
    let time = |x: Seq<char>| m@[x].created_at@;
    assert(page_of(ids, all, time, limit));
    assert forall|i: int, j: int| 0 <= i < j < rows.len() implies (#[trigger] rows[i]).id@ != (
    #[trigger] rows[j]).id@ && rows[i].created_at@ >= rows[j].created_at@ by {
        assert(ids[i] == rows[i].id@ && ids[j] == rows[j].id@);
        assert(time(ids[i]) >= time(ids[j]));
    }
    if m@.contains_key(k) && transaction_listed(m@[k], tenant, filter) && (forall|i: int|
        0 <= i < rows.len() ==> (#[trigger] rows[i]).id@ != k) {
        assert(all.contains(k));
        assert(!ids.contains(k)) by {
            if ids.contains(k) {
                let i = choose|i: int| 0 <= i < ids.len() && ids[i] == k;
                assert(rows[i].id@ == k);
            }
        }
        assert forall|i: int| 0 <= i < rows.len() implies m@[k].created_at@ <= (
        #[trigger] rows[i]).created_at@ by {
            assert(ids[i] == rows[i].id@);
            assert(time(k) <= time(ids[i]));
        }
        if rows.len() < limit {
            lemma_all_shown(ids, all, k);
        }
    }
}

/// A page shows subscriptions of the tenant that pass the filter, each as it is kept and once, newest
/// first, and leaves out none of them that is newer than one it shows, nor any at all while
/// it has room.
pub proof fn law_subscription_pages_are_the_newest(
    rows: Seq<Subscription>,
    m: Table<Subscription>,
    tenant: Seq<char>,
    filter: Option<SubscriptionStatus>,
    limit: int,
    k: Seq<char>,
)
    requires
        subscription_page(rows, m, tenant, filter, limit),
        0 <= limit,
    ensures
        rows.len() <= limit,
        forall|i: int|
            0 <= i < rows.len() ==> {
                let row = #[trigger] rows[i];
                &&& m@.contains_key(row.id@) && row.same_as(m@[row.id@])
                &&& row.tenant_id@ == tenant && (filter matches Some(v) ==> row.status == v)
            },
        forall|i: int, j: int|
            0 <= i < j < rows.len() ==> (#[trigger] rows[i]).id@ != (#[trigger] rows[j]).id@
                && rows[i].created_at@ >= rows[j].created_at@,
        m@.contains_key(k) && m@[k].tenant_id@ == tenant && (filter matches Some(v) ==> m@[k].status
            == v) && (forall|i: int| 0 <= i < rows.len() ==> (#[trigger] rows[i]).id@ != k) ==> {
            &&& rows.len() == limit
            &&& forall|i: int|
                0 <= i < rows.len() ==> m@[k].created_at@ <= (#[trigger] rows[i]).created_at@
        },
{
    let ids = subscription_ids(rows);
    let all = picked(m.seq(), subscriptions_listed(tenant, filter), m.seq().len() as int);
    let time = |x: Seq<char>| m@[x].created_at@;
    assert(page_of(ids, all, time, limit));
    assert forall|i: int, j: int| 0 <= i < j < rows.len() implies (#[trigger] rows[i]).id@ != (
    #[trigger] rows[j]).id@ && rows[i].created_at@ >= rows[j].created_at@ by {
        assert(ids[i] == rows[i].id@ && ids[j] == rows[j].id@);
        assert(time(ids[i]) >= time(ids[j]));
    }
    if m@.contains_key(k) && subscription_listed(m@[k], tenant, filter) && (forall|i: int|
        0 <= i < rows.len() ==> (#[trigger] rows[i]).id@ != k) {
        assert(all.contains(k));
        assert(!ids.contains(k)) by {
            if ids.contains(k) {
                let i = choose|i: int| 0 <= i < ids.len() && ids[i] == k;
                assert(rows[i].id@ == k);
            }
        }
        assert forall|i: int| 0 <= i < rows.len() implies m@[k].created_at@ <= (
        #[trigger] rows[i]).created_at@ by {
            assert(ids[i] == rows[i].id@);
            assert(time(k) <= time(ids[i]));
        }
        if rows.len() < limit {
            lemma_all_shown(ids, all, k);
        }
    }
}

/// A page shows quotes between agents of the tenant that pass the filter, each as it is kept and once, newest
/// first, and leaves out none of them that is newer than one it shows, nor any at all while
/// it has room.
pub proof fn law_peer_quote_pages_are_the_newest(
    rows: Seq<PeerQuote>,
    m: Table<PeerQuote>,
    tenant: Seq<char>,
    filter: Option<PeerQuoteStatus>,
    limit: int,
    k: Seq<char>,
)
    requires
        peer_quote_page(rows, m, tenant, filter, limit),
        0 <= limit,
    ensures
        rows.len() <= limit,
        forall|i: int|
            0 <= i < rows.len() ==> {
                let row = #[trigger] rows[i];
                &&& m@.contains_key(row.id@) && row.same_as(m@[row.id@])
                &&& row.tenant_id@ == tenant && (filter matches Some(v) ==> row.status == v)
            },
        forall|i: int, j: int|
            0 <= i < j < rows.len() ==> (#[trigger] rows[i]).id@ != (#[trigger] rows[j]).id@
                && rows[i].created_at@ >= rows[j].created_at@,
        m@.contains_key(k) && m@[k].tenant_id@ == tenant && (filter matches Some(v) ==> m@[k].status
            == v) && (forall|i: int| 0 <= i < rows.len() ==> (#[trigger] rows[i]).id@ != k) ==> {
            &&& rows.len() == limit
            &&& forall|i: int|
                0 <= i < rows.len() ==> m@[k].created_at@ <= (#[trigger] rows[i]).created_at@
        },
{
    let ids = peer_quote_ids(rows);
    let all = picked(m.seq(), peer_quotes_listed(tenant, filter), m.seq().len() as int);
    let time = |x: Seq<char>| m@[x].created_at@;
    assert(page_of(ids, all, time, limit));
    assert forall|i: int, j: int| 0 <= i < j < rows.len() implies (#[trigger] rows[i]).id@ != (
    #[trigger] rows[j]).id@ && rows[i].created_at@ >= rows[j].created_at@ by {
        assert(ids[i] == rows[i].id@ && ids[j] == rows[j].id@);
        assert(time(ids[i]) >= time(ids[j]));
    }
    if m@.contains_key(k) && peer_quote_listed(m@[k], tenant, filter) && (forall|i: int|
        0 <= i < rows.len() ==> (#[trigger] rows[i]).id@ != k) {
        assert(all.contains(k));
        assert(!ids.contains(k)) by {
            if ids.contains(k) {
                let i = choose|i: int| 0 <= i < ids.len() && ids[i] == k;
                assert(rows[i].id@ == k);
            }
        }
        assert forall|i: int| 0 <= i < rows.len() implies m@[k].created_at@ <= (
        #[trigger] rows[i]).created_at@ by {
            assert(ids[i] == rows[i].id@);
            assert(time(k) <= time(ids[i]));
        }
        if rows.len() < limit {
            lemma_all_shown(ids, all, k);
        }
    }
}

proof fn lemma_all_shown(shown: Seq<Seq<char>>, all: Seq<Seq<char>>, k: Seq<char>)
    requires
        shown.no_duplicates(),
        shown.len() == all.len(),
        forall|i: int| 0 <= i < shown.len() ==> all.contains(#[trigger] shown[i]),
        all.contains(k),
    ensures
        shown.contains(k),
{
    if !shown.contains(k) {
        let more = shown.push(k);
        assert(more.no_duplicates()) by {
            assert forall|i: int, j: int|
                0 <= i < more.len() && 0 <= j < more.len() && i != j implies more[i] != more[j] by {
                if i == shown.len() {
                    assert(shown.contains(shown[j]));
                } else if j == shown.len() {
                    assert(shown.contains(shown[i]));
                }
            }
        }
        more.unique_seq_to_set();
        assert(more.to_set().subset_of(all.to_set())) by {
            assert forall|x: Seq<char>| more.to_set().contains(x) implies all.to_set().contains(
                x,
            ) by {
                let i = choose|i: int| 0 <= i < more.len() && more[i] == x;
                if i < shown.len() {
                    assert(all.contains(shown[i]));
                }
            }
        }
        vstd::seq_lib::seq_to_set_is_finite::<Seq<char>>(all);
        vstd::set_lib::lemma_len_subset(more.to_set(), all.to_set());
        all.lemma_cardinality_of_set();
    }
}

/// A receipt is shown to the tenant that owns the transaction it is about, as it is kept, and
/// to no other.
pub proof fn law_receipts_are_shown_to_their_tenant(
    service: IcpService,
    tenant: Seq<char>,
    jti: Seq<char>,
    r: Result<StoredReceipt, ApiError>,
)
    requires
        receipt_found(service, tenant, jti, r),
    ensures
        ({
            let kept = service.receipts@[jti];
            let about = kept.claims.icp.transaction_id@;
            &&& r is Ok <==> service.receipts@.contains_key(jti)
                && service.transactions@.contains_key(about)
                && service.transactions@[about].tenant_id@ == tenant
            &&& r matches Ok(x) ==> x == kept
            &&& r matches Err(e) ==> e@ is ResourceNotFound
        }),
{
}

/// The receipts of a list are those of the tenant, and of the intent that is asked for, in
/// the order in which they were scanned.
pub proof fn law_listed_receipts_pass_the_filter(
    s: Seq<StoredReceipt>,
    m: Map<Seq<char>, Transaction>,
    tenant: Seq<char>,
    intent: Option<Seq<char>>,
    n: int,
    x: StoredReceipt,
)
    requires
        0 <= n <= s.len(),
    ensures
        receipts_listed(s, m, tenant, intent, n).contains(x) <==> (exists|i: int|
            0 <= i < n && #[trigger] s[i] == x) && m.contains_key(x.claims.icp.transaction_id@)
            && m[x.claims.icp.transaction_id@].tenant_id@ == tenant && (intent matches Some(want)
            ==> x.claims.icp.intent@ == want),
        receipts_listed(s, m, tenant, intent, n).len() <= n,
    decreases n,
{
    if n > 0 {
        law_listed_receipts_pass_the_filter(s, m, tenant, intent, n - 1, x);
        let before = receipts_listed(s, m, tenant, intent, n - 1);
        let all = receipts_listed(s, m, tenant, intent, n);
        if receipt_listed(s[n - 1], m, tenant, intent) {
            assert(all[before.len() as int] == s[n - 1]);
            if before.contains(x) {
                let i = choose|i: int| 0 <= i < before.len() && before[i] == x;
                assert(all[i] == x);
            }
            if all.contains(x) && x != s[n - 1] {
                let i = choose|i: int| 0 <= i < all.len() && all[i] == x;
                assert(before[i] == x);
            }
        }
    }
}

/// A page has as many rows as are asked for, up to five hundred, and a hundred where none
/// are asked for.
pub proof fn law_pages_have_a_size(asked: usize)
    ensures
        page_size(None) == 100,
        asked <= 500 ==> page_size(Some(asked)) == asked,
        asked > 500 ==> page_size(Some(asked)) == 500,
{
}

/// To fill a page of receipts up to three times as many are looked at, but never more than
/// fifteen hundred.
pub proof fn law_scans_are_bounded(limit: int)
    requires
        0 <= limit,
    ensures
        limit <= 500 ==> scan_size(limit) == 3 * limit,
        limit > 500 ==> scan_size(limit) == 1_500,
{
}

/// Subscriptions are filtered by each status but that of a trial.
pub proof fn law_trials_are_no_filter(v: SubscriptionStatus)
    ensures
        filterable(v) <==> v is Active || v is Paused || v is Canceled || v is PastDue,
{
}

} // verus!
