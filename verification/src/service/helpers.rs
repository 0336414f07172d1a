//! What every family of intents shares: reading rows as a tenant, opening
//! transactions, reserving the spend of a mandate, and the reply of the engine.

use vstd::prelude::*;

use crate::crypto::{fresh_id, is_fresh_id};
use crate::documents::{event_document, event_json};
use crate::errors::{ApiError, ErrorView};
use crate::events::{DeliveryStatus, Event, WebhookDelivery, WebhookSubscriber};
use crate::json::json_text;
use crate::mandate::{
    budget_window, checked_error, checked_ledger, law_spends_are_held_against_the_window, period_fits, MandateEvaluation, MandateSpendLimits, UsageView,
};
use crate::models::{
    Buyer, OrderSummary, PeerQuote, Subscription, Totals, Transaction, TransactionState,
};
use crate::service::{IcpService, IntentInput, Outcome, PersistedOrder};
use crate::table::{Entry, Table};
use crate::text::{
    eq_ignore_ascii_case, eq_ignoring_case, join3, join5, opt_text, opt_view, str_eq, string_views,
};
use crate::time::Timestamp;

verus! {

// ---------------------------------------------------------------------------
// Reading as a tenant
// ---------------------------------------------------------------------------

/// Whether the tenant owns a transaction with this id.
pub open spec fn owns_transaction(
    m: Map<Seq<char>, Transaction>,
    id: Seq<char>,
    tenant: Seq<char>,
) -> bool {
    m.contains_key(id) && m[id].tenant_id@ == tenant
}

/// Whether the tenant owns a subscription with this id.
pub open spec fn owns_subscription(
    m: Map<Seq<char>, Subscription>,
    id: Seq<char>,
    tenant: Seq<char>,
) -> bool {
    m.contains_key(id) && m[id].tenant_id@ == tenant
}

/// Whether the tenant owns a peer quote with this id.
pub open spec fn owns_peer_quote(
    m: Map<Seq<char>, PeerQuote>,
    id: Seq<char>,
    tenant: Seq<char>,
) -> bool {
    m.contains_key(id) && m[id].tenant_id@ == tenant
}

/// The error for a row that does not exist, or that belongs to another tenant.
pub open spec fn missing(kind: Seq<char>, id: Seq<char>) -> ErrorView {
    ErrorView::ResourceNotFound(kind + " "@ + id)
}

fn not_found(kind: &str, id: &str) -> (e: ApiError)
    ensures
        e@ == missing(kind@, id@),
{
    ApiError::ResourceNotFound(join3(kind, " ", id))
}

/// The transaction, for the tenant that owns it. To any other tenant it does not
/// exist.
pub fn transaction_for_tenant<'a>(
    transactions: &'a Table<Transaction>,
    transaction_id: &str,
    tenant_id: &str,
) -> (r: Result<&'a Transaction, ApiError>)
    ensures
        match r {
            Ok(t) => owns_transaction(transactions@, transaction_id@, tenant_id@) && *t
                == transactions@[transaction_id@],
            Err(e) => !owns_transaction(transactions@, transaction_id@, tenant_id@) && e@
                == missing("transaction"@, transaction_id@),
        },
{
    match transactions.get(transaction_id) {
        Some(t) => if str_eq(t.tenant_id.as_str(), tenant_id) {
            Ok(t)
        } else {
            Err(not_found("transaction", transaction_id))
        },
        None => Err(not_found("transaction", transaction_id)),
    }
}

/// The subscription, for the tenant that owns it. To any other tenant it does
/// not exist.
pub fn subscription_for_tenant<'a>(
    subscriptions: &'a Table<Subscription>,
    subscription_id: &str,
    tenant_id: &str,
) -> (r: Result<&'a Subscription, ApiError>)
    ensures
        match r {
            Ok(s) => owns_subscription(subscriptions@, subscription_id@, tenant_id@) && *s
                == subscriptions@[subscription_id@],
            Err(e) => !owns_subscription(subscriptions@, subscription_id@, tenant_id@) && e@
                == missing("subscription"@, subscription_id@),
        },
{
    match subscriptions.get(subscription_id) {
        Some(s) => if str_eq(s.tenant_id.as_str(), tenant_id) {
            Ok(s)
        } else {
            Err(not_found("subscription", subscription_id))
        },
        None => Err(not_found("subscription", subscription_id)),
    }
}

/// The peer quote, for the tenant that owns it. To any other tenant it does not
/// exist.
pub fn peer_quote_for_tenant<'a>(
    peer_quotes: &'a Table<PeerQuote>,
    peer_quote_id: &str,
    tenant_id: &str,
) -> (r: Result<&'a PeerQuote, ApiError>)
    ensures
        match r {
            Ok(q) => owns_peer_quote(peer_quotes@, peer_quote_id@, tenant_id@) && *q
                == peer_quotes@[peer_quote_id@],
            Err(e) => !owns_peer_quote(peer_quotes@, peer_quote_id@, tenant_id@) && e@ == missing(
                "peer_quote"@,
                peer_quote_id@,
            ),
        },
{
    match peer_quotes.get(peer_quote_id) {
        Some(q) => if str_eq(q.tenant_id.as_str(), tenant_id) {
            Ok(q)
        } else {
            Err(not_found("peer_quote", peer_quote_id))
        },
        None => Err(not_found("peer_quote", peer_quote_id)),
    }
}

// ---------------------------------------------------------------------------
// Opening a transaction
// ---------------------------------------------------------------------------

/// The currency of an intent: that of its context, or US dollars.
pub open spec fn intent_currency(input: IntentInput) -> Seq<char> {
    match input.envelope.context.currency {
        Some(c) => c@,
        None => "USD"@,
    }
}

/// The currency of an intent: that of its context, or US dollars.
pub fn currency_of(input: &IntentInput) -> (r: String)
    ensures
        r@ == intent_currency(*input),
{
    match &input.envelope.context.currency {
        Some(c) => c.clone(),
        None => String::from_str("USD"),
    }
}

/// Whether the buyer is blank.
pub open spec fn blank_buyer(b: Buyer) -> bool {
    b.first_name is None && b.last_name is None && b.email is None && b.phone_number is None
        && b.principal_did is None
}

/// Whether the sums are blank.
pub open spec fn blank_totals(t: Totals) -> bool {
    t.subtotal is None && t.discount is None && t.shipping is None && t.tax is None && t.total
        is None
}

/// Whether this is a new transaction for the intent, in the given state.
pub open spec fn opened(
    t: Transaction,
    input: IntentInput,
    state: TransactionState,
    now: Timestamp,
    fresh_id: String,
) -> bool {
    &&& t.id == (match input.envelope.transaction_id {
        Some(id) => id,
        None => fresh_id,
    })
    &&& t.state == state
    &&& t.agent_id == input.agent.raw
    &&& t.tenant_id == input.tenant.tenant_id
    &&& t.mandate_jti == input.envelope.mandate_jti
    &&& t.currency@ == intent_currency(input)
    &&& t.jurisdiction == input.envelope.context.jurisdiction
    &&& blank_buyer(t.buyer)
    &&& t.ship_to is None
    &&& t.bill_to is None
    &&& t.line_items@.len() == 0
    &&& blank_totals(t.totals)
    &&& t.order_id is None
    &&& t.quote_expires_at is None
    &&& t.created_at == now
    &&& t.updated_at == now
    &&& t.external_refs@ == Map::<Seq<char>, String>::empty()
}

/// A new transaction for the intent: under the id that the envelope names, or
/// under a fresh one.
pub fn fresh_transaction(
    input: &IntentInput,
    state: TransactionState,
    now: Timestamp,
    fresh_id: String,
) -> (t: Transaction)
    ensures
        opened(t, *input, state, now, fresh_id),
{
    let id = match &input.envelope.transaction_id {
        Some(id) => id.clone(),
        None => fresh_id,
    };
    Transaction {
        id,
        state,
        agent_id: input.agent.raw.clone(),
        tenant_id: input.tenant.tenant_id.clone(),
        mandate_jti: input.envelope.mandate_jti.clone(),
        currency: currency_of(input),
        jurisdiction: input.envelope.context.jurisdiction.clone(),
        buyer: Buyer::default(),
        ship_to: None,
        bill_to: None,
        line_items: Vec::new(),
        totals: Totals::default(),
        order_id: None,
        quote_expires_at: None,
        created_at: now,
        updated_at: now,
        external_refs: Table::new(),
    }
}

/// Whether the map gained this transaction under its id, and nothing else
/// happened to it.
pub open spec fn gained(
    before: Map<Seq<char>, Transaction>,
    after: Map<Seq<char>, Transaction>,
    t: Transaction,
) -> bool {
    &&& after == before.insert(t.id@, after[t.id@])
    &&& after[t.id@].same_as(t)
}

/// Whether the map changed in one place only: there it now holds `t`, and
/// `shown` is a copy of it.
pub open spec fn changed(
    before: Map<Seq<char>, Transaction>,
    after: Map<Seq<char>, Transaction>,
    id: Seq<char>,
    t: Transaction,
    shown: Transaction,
) -> bool {
    &&& after == before.insert(id, t)
    &&& shown.same_as(t)
}

/// Whether the outcome is about a transaction alone.
pub open spec fn transaction_only(o: Outcome) -> bool {
    o.order is None && o.subscription is None && o.peer_quote is None
}

/// The outcome of an intent that is about a transaction alone.
pub(crate) fn outcome_of(transaction: Transaction) -> (o: Outcome)
    ensures
        o.transaction == transaction,
        transaction_only(o),
{
    Outcome { transaction, order: None, subscription: None, peer_quote: None }
}

/// Whether the quote of a transaction is over.
pub open spec fn quote_over(t: Transaction, now: int) -> bool {
    t.quote_expires_at matches Some(at) && at@ <= now
}

/// The error for a quote that is over.
pub open spec fn quote_expired_error(id: Seq<char>) -> ErrorView {
    ErrorView::PreconditionFailed("transaction "@ + id + " quote has expired"@)
}

/// The transaction in its expired state.
pub open spec fn expired_at(t: Transaction, now: Timestamp) -> Transaction {
    Transaction { state: TransactionState::Expired, updated_at: now, ..t }
}

/// Whether a quote that is over is still waiting to be marked so.
pub open spec fn awaits_expiry(t: Transaction) -> bool {
    t.state is Draft || t.state is Quoted
}

/// The transactions after the quote of one of them was looked at: it is marked
/// as expired when it is over and nothing was done with it yet.
pub open spec fn after_quote_check(
    m: Map<Seq<char>, Transaction>,
    id: Seq<char>,
    now: Timestamp,
) -> Map<Seq<char>, Transaction> {
    if quote_over(m[id], now@) && awaits_expiry(m[id]) {
        m.insert(id, expired_at(m[id], now))
    } else {
        m
    }
}

impl IcpService {
    /// Puts a changed transaction back under its id.
    pub(crate) fn put_transaction(&mut self, t: Transaction)
        requires
            old(self).wf(),
        ensures
            final(self).wf(),
            final(self).transactions@ == old(self).transactions@.insert(t.id@, t),
            *final(self) == (IcpService { transactions: final(self).transactions, ..*old(self) }),
    {
        self.transactions.insert(t.id.clone(), t);
    }

    /// Puts a changed subscription back under its id.
    pub(crate) fn put_subscription(&mut self, s: Subscription)
        requires
            old(self).wf(),
        ensures
            final(self).wf(),
            final(self).subscriptions@ == old(self).subscriptions@.insert(s.id@, s),
            *final(self) == (IcpService { subscriptions: final(self).subscriptions, ..*old(self) }),
    {
        self.subscriptions.insert(s.id.clone(), s);
    }

    /// Puts a changed peer quote back under its id.
    pub(crate) fn put_peer_quote(&mut self, q: PeerQuote)
        requires
            old(self).wf(),
        ensures
            final(self).wf(),
            final(self).peer_quotes@ == old(self).peer_quotes@.insert(q.id@, q),
            *final(self) == (IcpService { peer_quotes: final(self).peer_quotes, ..*old(self) }),
    {
        self.peer_quotes.insert(q.id.clone(), q);
    }

    /// Takes a transaction out, to be changed and put back.
    pub(crate) fn take_transaction(&mut self, id: &str) -> (r: Option<Transaction>)
        requires
            old(self).wf(),
        ensures
            final(self).wf(),
            final(self).transactions@ == old(self).transactions@.remove(id@),
            *final(self) == (IcpService { transactions: final(self).transactions, ..*old(self) }),
            match r {
                Some(t) => old(self).transactions@.contains_key(id@) && t
                    == old(self).transactions@[id@] && t.id@ == id@,
                None => !old(self).transactions@.contains_key(id@),
            },
    {
        self.transactions.remove(id)
    }

    /// Puts a transaction under its id and gives back a copy.
    pub(crate) fn keep_transaction(&mut self, t: Transaction) -> (r: Transaction)
        requires
            old(self).wf(),
        ensures
            final(self).wf(),
            final(self).transactions@ == old(self).transactions@.insert(t.id@, t),
            *final(self) == (IcpService { transactions: final(self).transactions, ..*old(self) }),
            r.same_as(t),
    {
        let r = t.clone();
        self.put_transaction(t);
        r
    }

    /// Takes a subscription out, to be changed and put back.
    pub(crate) fn take_subscription(&mut self, id: &str) -> (r: Option<Subscription>)
        requires
            old(self).wf(),
        ensures
            final(self).wf(),
            final(self).subscriptions@ == old(self).subscriptions@.remove(id@),
            *final(self) == (IcpService { subscriptions: final(self).subscriptions, ..*old(self) }),
            match r {
                Some(s) => old(self).subscriptions@.contains_key(id@) && s
                    == old(self).subscriptions@[id@] && s.id@ == id@,
                None => !old(self).subscriptions@.contains_key(id@),
            },
    {
        self.subscriptions.remove(id)
    }

    /// Puts a subscription under its id and gives back a copy.
    pub(crate) fn keep_subscription(&mut self, s: Subscription) -> (r: Subscription)
        requires
            old(self).wf(),
        ensures
            final(self).wf(),
            final(self).subscriptions@ == old(self).subscriptions@.insert(s.id@, s),
            *final(self) == (IcpService { subscriptions: final(self).subscriptions, ..*old(self) }),
            r.same_as(s),
    {
        let r = s.clone();
        self.put_subscription(s);
        r
    }

    /// Takes a peer quote out, to be changed and put back.
    pub(crate) fn take_peer_quote(&mut self, id: &str) -> (r: Option<PeerQuote>)
        requires
            old(self).wf(),
        ensures
            final(self).wf(),
            final(self).peer_quotes@ == old(self).peer_quotes@.remove(id@),
            *final(self) == (IcpService { peer_quotes: final(self).peer_quotes, ..*old(self) }),
            match r {
                Some(q) => old(self).peer_quotes@.contains_key(id@) && q
                    == old(self).peer_quotes@[id@] && q.id@ == id@,
                None => !old(self).peer_quotes@.contains_key(id@),
            },
    {
        self.peer_quotes.remove(id)
    }

    /// Puts a peer quote under its id and gives back a copy.
    pub(crate) fn keep_peer_quote(&mut self, q: PeerQuote) -> (r: PeerQuote)
        requires
            old(self).wf(),
        ensures
            final(self).wf(),
            final(self).peer_quotes@ == old(self).peer_quotes@.insert(q.id@, q),
            *final(self) == (IcpService { peer_quotes: final(self).peer_quotes, ..*old(self) }),
            r.same_as(q),
    {
        let r = q.clone();
        self.put_peer_quote(q);
        r
    }

    /// Refuses a transaction whose quote is over, and marks it as expired when
    /// nothing was done with it yet.
    pub fn ensure_quote_open(&mut self, transaction_id: &str, now: Timestamp) -> (r: Result<
        (),
        ApiError,
    >)
        requires
            old(self).wf(),
            old(self).transactions@.contains_key(transaction_id@),
        ensures
            final(self).wf(),
            *final(self) == (IcpService { transactions: final(self).transactions, ..*old(self) }),
            final(self).transactions@ == after_quote_check(
                old(self).transactions@,
                transaction_id@,
                now,
            ),
            match r {
                Ok(()) => !quote_over(old(self).transactions@[transaction_id@], now@),
                Err(e) => quote_over(old(self).transactions@[transaction_id@], now@) && e@
                    == quote_expired_error(transaction_id@),
            },
    {
        let (over, waiting) = match self.transactions.get(transaction_id) {
            Some(t) => {
                let over = match &t.quote_expires_at {
                    Some(at) => at.at_or_before(&now),
                    None => false,
                };
                let waiting = t.state == TransactionState::Draft || t.state
                    == TransactionState::Quoted;
                (over, waiting)
            },
            None => (false, false),
        };
        if !over {
            return Ok(());
        }
        if waiting {
            match self.transactions.remove(transaction_id) {
                Some(mut t) => {
                    t.state = TransactionState::Expired;
                    t.updated_at = now;
                    self.put_transaction(t);
                    assert(self.transactions@ =~= old(self).transactions@.insert(
                        transaction_id@,
                        t,
                    ));
                },
                None => {},
            }
        }
        Err(
            ApiError::PreconditionFailed(join3("transaction ", transaction_id, " quote has expired")),
        )
    }
}

// ---------------------------------------------------------------------------
// Mandates
// ---------------------------------------------------------------------------

/// The error for a charge in another currency than that of the budget.
pub open spec fn currency_error(budget: Seq<char>, charge: Seq<char>) -> ErrorView {
    ErrorView::MandateOutOfScope(
        "mandate budget currency `"@ + budget + "` does not match charge currency `"@ + charge
            + "`"@,
    )
}

/// The ledger after a charge was reserved, and the error when it was refused.
/// Without a mandate, and for amounts of zero or less, nothing is reserved.
pub open spec fn reservation(
    ledger: Map<Seq<char>, UsageView>,
    mandate: Option<&MandateEvaluation>,
    tenant: Seq<char>,
    amount: int,
    currency: Seq<char>,
    now: int,
) -> (Map<Seq<char>, UsageView>, Option<ErrorView>) {
    match mandate {
        None => (ledger, None),
        Some(ev) => if amount <= 0 {
            (ledger, None)
        } else if !eq_ignoring_case(ev.payload.icp.budget.currency@, currency) {
            (ledger, Some(currency_error(ev.payload.icp.budget.currency@, currency)))
        } else {
            (
                checked_ledger(
                    ledger,
                    ev.payload.jti@,
                    tenant,
                    amount,
                    now,
                    ev.payload.limits(),
                ),
                checked_error(
                    ledger,
                    ev.payload.jti@,
                    tenant,
                    amount,
                    now,
                    ev.payload.limits(),
                ),
            )
        },
    }
}

/// Whether the budget period of a mandate, if there is one, can be used.
pub open spec fn mandate_usable(mandate: Option<&MandateEvaluation>) -> bool {
    mandate matches Some(ev) ==> period_fits(opt_text(ev.payload.icp.budget.period))
}

/// The id of the mandate, if there is one.
pub open spec fn mandate_id(mandate: Option<&MandateEvaluation>) -> Option<String> {
    match mandate {
        Some(ev) => Some(ev.payload.jti),
        None => None,
    }
}

/// The id of the mandate, if there is one.
pub(crate) fn jti_of(mandate: Option<&MandateEvaluation>) -> (r: Option<String>)
    ensures
        r == mandate_id(mandate),
{
    match mandate {
        Some(ev) => Some(ev.payload.jti.clone()),
        None => None,
    }
}

impl IcpService {
    /// Reserves a charge against the budget of the mandate under which the
    /// intent runs.
    pub fn reserve_mandate_spend(
        &mut self,
        mandate: Option<&MandateEvaluation>,
        tenant_id: &str,
        amount_minor: i64,
        currency: &str,
        now: Timestamp,
    ) -> (r: Result<(), ApiError>)
        requires
            mandate_usable(mandate),
        ensures
            *final(self) == (IcpService { mandates: final(self).mandates, ..*old(self) }),
            final(self).mandates@ == reservation(
                old(self).mandates@,
                mandate,
                tenant_id@,
                amount_minor as int,
                currency@,
                now@,
            ).0,
            match r {
                Ok(()) => reservation(
                    old(self).mandates@,
                    mandate,
                    tenant_id@,
                    amount_minor as int,
                    currency@,
                    now@,
                ).1 is None,
                Err(e) => reservation(
                    old(self).mandates@,
                    mandate,
                    tenant_id@,
                    amount_minor as int,
                    currency@,
                    now@,
                ).1 == Some(e@),
            },
    {
        let ev = match mandate {
            Some(ev) => ev,
            None => {
                return Ok(());
            },
        };
        if amount_minor <= 0 {
            return Ok(());
        }
        let budget = &ev.payload.icp.budget;
        if !eq_ignore_ascii_case(budget.currency.as_str(), currency) {
            return Err(
                ApiError::MandateOutOfScope(
                    join5(
                        "mandate budget currency `",
                        budget.currency.as_str(),
                        "` does not match charge currency `",
                        currency,
                        "`",
                    ),
                ),
            );
        }
        let limits = MandateSpendLimits {
            budget_minor: budget.amount_minor,
            per_transaction: budget.per_transaction,
            window: budget.window(),
        };
        self.mandates.try_record_spend_checked(
            ev.payload.jti.as_str(),
            tenant_id,
            amount_minor,
            now,
            limits,
        )
    }
}

// ---------------------------------------------------------------------------
// The engine
// ---------------------------------------------------------------------------

/// What the commerce engine answered to an order.
#[derive(Debug)]
pub enum EngineReply {
    /// No engine is mounted.
    NoEngine,
    /// The order was accepted.
    Persisted(PersistedOrder),
    /// The buyer is not known well enough to create an order.
    NoBuyer,
    /// The call failed.
    Failed(ApiError),
}

/// Why an order without a persisted counterpart is refused. Only a production
/// deployment insists on one.
pub open spec fn engine_error(reply: EngineReply, production: bool) -> Option<ErrorView> {
    if !production {
        None
    } else {
        match reply {
            EngineReply::NoEngine => Some(
                ErrorView::EngineUnavailable("iCommerce engine unavailable"@),
            ),
            EngineReply::Persisted(_) => None,
            EngineReply::NoBuyer => Some(
                ErrorView::PreconditionFailed(
                    "buyer email is required to persist a production order"@,
                ),
            ),
            EngineReply::Failed(e) => Some(e@),
        }
    }
}

/// Whether this is the summary of what the engine persisted.
pub open spec fn summarizes(order: Option<OrderSummary>, reply: EngineReply) -> bool {
    match reply {
        EngineReply::Persisted(o) => {
            &&& order matches Some(s)
            &&& s.id == o.id
            &&& s.order_number == o.order_number
            &&& s.status@ == "created"@
            &&& s.permalink_url is None
            &&& s.total == o.total
        },
        _ => order is None,
    }
}

/// The order of a transaction, given the reply of the engine. A production
/// deployment fails without a persisted order; elsewhere the intent goes on
/// without one.
pub fn order_from_reply(reply: EngineReply, production: bool) -> (r: Result<
    Option<OrderSummary>,
    ApiError,
>)
    ensures
        match r {
            Ok(order) => engine_error(reply, production) is None && summarizes(order, reply),
            Err(e) => engine_error(reply, production) == Some(e@),
        },
{
    match reply {
        EngineReply::Persisted(o) => Ok(
            Some(
                OrderSummary {
                    id: o.id,
                    order_number: o.order_number,
                    status: String::from_str("created"),
                    permalink_url: None,
                    total: o.total,
                },
            ),
        ),
        EngineReply::NoEngine => if production {
            Err(ApiError::EngineUnavailable(String::from_str("iCommerce engine unavailable")))
        } else {
            Ok(None)
        },
        EngineReply::NoBuyer => if production {
            Err(
                ApiError::PreconditionFailed(
                    String::from_str("buyer email is required to persist a production order"),
                ),
            )
        } else {
            Ok(None)
        },
        EngineReply::Failed(e) => if production {
            Err(e)
        } else {
            Ok(None)
        },
    }
}

/// The id of an order, if there is one.
pub open spec fn order_id_of(order: Option<OrderSummary>) -> Option<String> {
    match order {
        Some(o) => Some(o.id),
        None => None,
    }
}

/// The id of an order, if there is one.
pub(crate) fn order_id(order: &Option<OrderSummary>) -> (r: Option<String>)
    ensures
        r == order_id_of(*order),
{
    match order {
        Some(o) => Some(o.id.clone()),
        None => None,
    }
}

// ---------------------------------------------------------------------------
// Webhooks
// ---------------------------------------------------------------------------

/// The URLs of the active subscribers of a tenant among the first `n` entries.
pub open spec fn active_urls(
    subscribers: Seq<Entry<WebhookSubscriber>>,
    tenant: Seq<char>,
    n: int,
) -> Seq<Seq<char>>
    decreases n,
{
    if n <= 0 {
        Seq::empty()
    } else {
        let before = active_urls(subscribers, tenant, n - 1);
        let s = subscribers[n - 1].value;
        if s.active && s.tenant_id@ == tenant {
            before.push(s.url@)
        } else {
            before
        }
    }
}

/// Where an event goes: to every active subscriber of the tenant, and only when
/// there is none to the global destination, if it is fully configured.
pub open spec fn destinations(
    subscribers: Seq<Entry<WebhookSubscriber>>,
    tenant: Option<Seq<char>>,
    url: Option<Seq<char>>,
    secret: Option<Seq<char>>,
) -> Seq<Seq<char>> {
    let own = match tenant {
        Some(t) => active_urls(subscribers, t, subscribers.len() as int),
        None => Seq::empty(),
    };
    if own.len() > 0 {
        own
    } else if url is Some && secret is Some {
        seq![url->0]
    } else {
        Seq::empty()
    }
}

/// Whether the delivery carries the event to the destination, for the first
/// time at `now`.
pub open spec fn carries(
    d: WebhookDelivery,
    event: Event,
    url: Seq<char>,
    now: Timestamp,
    tenant: Option<Seq<char>>,
    max_attempts: u32,
) -> bool {
    &&& is_fresh_id(d.id@, "del_"@)
    &&& d.event_id == event.id
    &&& d.event_type == event.event_type
    &&& d.url@ == url
    &&& d.payload_json@ == json_text(event_document(event))
    &&& d.status is Pending
    &&& d.attempts == 0
    &&& d.max_attempts == max_attempts
    &&& d.next_attempt_at == now
    &&& d.last_status_code is None
    &&& d.last_error is None
    &&& d.created_at == now
    &&& d.updated_at == now
    &&& d.delivered_at is None
    &&& d.tenant_id@ == (match tenant {
        Some(t) => t,
        None => Seq::empty(),
    })
}

/// Whether the outbox grew by one delivery of the event for each destination.
pub open spec fn enqueued(
    before: Seq<WebhookDelivery>,
    after: Seq<WebhookDelivery>,
    urls: Seq<Seq<char>>,
    event: Event,
    now: Timestamp,
    tenant: Option<Seq<char>>,
    max_attempts: u32,
) -> bool {
    &&& after.len() == before.len() + urls.len()
    &&& after.take(before.len() as int) == before
    &&& forall|i: int|
        0 <= i < urls.len() ==> carries(
            #[trigger] after[before.len() + i],
            event,
            urls[i],
            now,
            tenant,
            max_attempts,
        )
}

/// The URLs of the active subscribers of a tenant, in the order in which they
/// were registered.
pub fn active_subscriber_urls(subscribers: &Table<WebhookSubscriber>, tenant_id: &str) -> (r: Vec<
    String,
>)
    ensures
        string_views(r@) == active_urls(
            subscribers.seq(),
            tenant_id@,
            subscribers.seq().len() as int,
        ),
{
    let mut out: Vec<String> = Vec::new();
    let n: usize = subscribers.len();
    let mut i: usize = 0;
    assert(string_views(out@) =~= Seq::<Seq<char>>::empty());
    while i < n
        invariant
            i <= n == subscribers.seq().len(),
            string_views(out@) == active_urls(subscribers.seq(), tenant_id@, i as int),
        decreases n - i,
    {
        let s = &subscribers.entry_at(i).value;
        if s.active && str_eq(s.tenant_id.as_str(), tenant_id) {
            let ghost before = out@;
            out.push(s.url.clone());
            assert(string_views(out@) =~= string_views(before).push(s.url@));
        }
        i += 1;
    }
    out
}

impl IcpService {
    /// Where an event of the tenant goes.
    pub open spec fn event_destinations(&self, tenant: Option<Seq<char>>) -> Seq<Seq<char>> {
        destinations(
            self.webhook_subscribers.seq(),
            tenant,
            opt_text(self.config.webhook_url),
            opt_text(self.config.webhook_secret),
        )
    }

    /// Puts deliveries of an event into the outbox, one for each destination.
    pub fn enqueue_webhook(&mut self, event: &Event, tenant_id: Option<&str>, now: Timestamp)
        ensures
            *final(self) == (IcpService { webhook_outbox: final(self).webhook_outbox, ..*old(self) }),
            enqueued(
                old(self).webhook_outbox@,
                final(self).webhook_outbox@,
                old(self).event_destinations(opt_view(tenant_id)),
                *event,
                now,
                opt_view(tenant_id),
                old(self).webhook_max_attempts,
            ),
    {
        let payload_json = event_json(event).to_text();
        let ghost urls = self.event_destinations(opt_view(tenant_id));
        let ghost before = self.webhook_outbox@;
        let mut to: Vec<String> = match tenant_id {
            Some(t) => active_subscriber_urls(&self.webhook_subscribers, t),
            None => Vec::new(),
        };
        assert(string_views(to@).len() == to@.len());
        if to.len() == 0 {
            match (&self.config.webhook_url, &self.config.webhook_secret) {
                (Some(url), Some(_)) => {
                    to.push(url.clone());
                    assert(string_views(to@) =~= seq![url@]);
                },
                _ => {},
            }
        }
        assert(string_views(to@) =~= urls);
        assert(before.take(before.len() as int) =~= before);
        let mut i: usize = 0;
        while i < to.len()
            invariant
                i <= to@.len(),
                payload_json@ == json_text(event_document(*event)),
                string_views(to@) == urls,
                *self == (IcpService { webhook_outbox: self.webhook_outbox, ..*old(self) }),
                before == old(self).webhook_outbox@,
                self.webhook_outbox@.len() == before.len() + i,
                self.webhook_outbox@.take(before.len() as int) == before,
                forall|j: int|
                    0 <= j < i ==> carries(
                        #[trigger] self.webhook_outbox@[before.len() + j],
                        *event,
                        urls[j],
                        now,
                        opt_view(tenant_id),
                        old(self).webhook_max_attempts,
                    ),
            decreases to@.len() - i,
        {
            assert(urls[i as int] == to@[i as int]@);
            let ghost sofar = self.webhook_outbox@;
            let owner = match tenant_id {
                Some(t) => String::from_str(t),
                None => String::new(),
            };
            self.webhook_outbox.push(
                WebhookDelivery {
                    id: fresh_id("del_"),
                    event_id: event.id.clone(),
                    event_type: event.event_type.clone(),
                    url: to[i].clone(),
                    payload_json: payload_json.clone(),
                    status: DeliveryStatus::Pending,
                    attempts: 0,
                    max_attempts: self.webhook_max_attempts,
                    next_attempt_at: now,
                    last_status_code: None,
                    last_error: None,
                    created_at: now,
                    updated_at: now,
                    delivered_at: None,
                    tenant_id: owner,
                },
            );
            assert(self.webhook_outbox@.take(before.len() as int) =~= sofar.take(
                before.len() as int,
            ));
            i += 1;
        }
    }
}

// ---------------------------------------------------------------------------
// Laws
// ---------------------------------------------------------------------------

/// A charge under a mandate is reserved exactly when it is in the currency of the budget,
/// whatever the case, within the cap per transaction, and within what is left of the budget
/// in the open window; the tally of the mandate then grows by exactly the amount. Without a
/// mandate, and for nothing, nothing is reserved and nothing is refused.
pub proof fn law_charges_are_reserved_on_their_mandate(
    ledger: Map<Seq<char>, UsageView>,
    mandate: Option<&MandateEvaluation>,
    tenant: Seq<char>,
    amount: int,
    currency: Seq<char>,
    now: int,
)
    requires
        amount <= i64::MAX,
        mandate matches Some(ev) ==> (ledger.contains_key(ev.payload.jti@) ==> 0
            <= ledger[ev.payload.jti@].spent <= i64::MAX),
    ensures
        ({
            let (after, error) = reservation(ledger, mandate, tenant, amount, currency, now);
            &&& mandate is None || amount <= 0 ==> after == ledger && error is None
            &&& error is Some ==> after == ledger
            &&& mandate matches Some(ev) ==> (amount > 0 ==> {
                let budget = ev.payload.icp.budget;
                let jti = ev.payload.jti@;
                let window = budget_window(opt_text(budget.period));
                let spent = if ledger.contains_key(jti) && (
                ledger[jti].window_start matches Some(start) && now - start <= window) {
                    ledger[jti].spent
                } else {
                    0
                };
                let same_currency = eq_ignoring_case(budget.currency@, currency);
                &&& error is None <==> same_currency && budget.amount_minor >= 0 && (
                budget.per_transaction matches Some(cap) ==> amount <= cap) && spent + amount
                    <= budget.amount_minor
                &&& error matches Some(e) ==> (!same_currency ==> e is MandateOutOfScope) && (
                same_currency ==> e is MandateBudgetExceeded)
                &&& error is None ==> after.contains_key(jti) && after[jti].spent == spent + amount
                    && forall|k: Seq<char>|
                    k != jti ==> (after.contains_key(k) <==> ledger.contains_key(k))
                        && #[trigger] after[k] == ledger[k]
            })
        }),
{
    if mandate is Some && amount > 0 {
        let p = mandate->0.payload;
        law_spends_are_held_against_the_window(ledger, p.jti@, tenant, amount, now, p.limits());
    }
}

/// Whether one of the entries is an active subscriber of the tenant with this URL.
pub open spec fn listens(
    subscribers: Seq<Entry<WebhookSubscriber>>,
    i: int,
    tenant: Seq<char>,
    url: Seq<char>,
) -> bool {
    0 <= i < subscribers.len() && subscribers[i].value.active && subscribers[i].value.tenant_id@
        == tenant && subscribers[i].value.url@ == url
}

proof fn lemma_active_urls(
    subscribers: Seq<Entry<WebhookSubscriber>>,
    tenant: Seq<char>,
    url: Seq<char>,
    n: int,
)
    requires
        0 <= n <= subscribers.len(),
    ensures
        active_urls(subscribers, tenant, n).contains(url) <==> exists|i: int|
            i < n && #[trigger] listens(subscribers, i, tenant, url),
        active_urls(subscribers, tenant, n).len() <= n,
    decreases n,
{
    if n > 0 {
        lemma_active_urls(subscribers, tenant, url, n - 1);
        let before = active_urls(subscribers, tenant, n - 1);
        let s = subscribers[n - 1].value;
        let here = s.active && s.tenant_id@ == tenant;
        if here {
            let all = before.push(s.url@);
            assert(all[before.len() as int] == s.url@);
            if all.contains(url) && s.url@ != url {
                let i = choose|i: int| 0 <= i < all.len() && all[i] == url;
                assert(before[i] == url);
            }
            if before.contains(url) {
                let i = choose|i: int| 0 <= i < before.len() && before[i] == url;
                assert(all[i] == url);
            }
        }
        if active_urls(subscribers, tenant, n).contains(url) && !before.contains(url) {
            assert(listens(subscribers, n - 1, tenant, url));
        }
        if exists|i: int| i < n && #[trigger] listens(subscribers, i, tenant, url) {
            let i = choose|i: int| i < n && #[trigger] listens(subscribers, i, tenant, url);
            if i < n - 1 {
                assert(before.contains(url));
            } else {
                assert(active_urls(subscribers, tenant, n).contains(url));
            }
        }
    } else {
        assert(!active_urls(subscribers, tenant, n).contains(url));
    }
}

/// An event goes to each active subscriber of its tenant, and to no other; only where there
/// is none it goes to the destination of the deployment, if that has a secret.
pub proof fn law_events_go_to_their_subscribers(
    subscribers: Seq<Entry<WebhookSubscriber>>,
    tenant: Seq<char>,
    url: Option<Seq<char>>,
    secret: Option<Seq<char>>,
    to: Seq<char>,
)
    ensures
        ({
            let all = destinations(subscribers, Some(tenant), url, secret);
            let own = exists|i: int, u: Seq<char>| #[trigger] listens(subscribers, i, tenant, u);
            &&& own ==> (all.contains(to) <==> exists|i: int| #[trigger]
                listens(subscribers, i, tenant, to))
            &&& !own ==> (all.contains(to) <==> url == Some(to) && secret is Some)
        }),
{
    let n = subscribers.len() as int;
    let mine = active_urls(subscribers, tenant, n);
    lemma_active_urls(subscribers, tenant, to, n);
    if exists|i: int, u: Seq<char>| #[trigger] listens(subscribers, i, tenant, u) {
        let (i, u) = choose|i: int, u: Seq<char>| #[trigger] listens(subscribers, i, tenant, u);
        lemma_active_urls(subscribers, tenant, u, n);
        assert(mine.contains(u));
        assert(mine.len() > 0);
        if exists|j: int| #[trigger] listens(subscribers, j, tenant, to) {
            let j = choose|j: int| #[trigger] listens(subscribers, j, tenant, to);
            assert(j < n && listens(subscribers, j, tenant, to));
        }
    } else {
        if mine.len() > 0 {
            let u = mine[0];
            assert(mine.contains(u));
            lemma_active_urls(subscribers, tenant, u, n);
            let i = choose|i: int| i < n && #[trigger] listens(subscribers, i, tenant, u);
            assert(listens(subscribers, i, tenant, u));
        }
        if url is Some {
            assert(seq![url->0][0] == url->0);
        }
    }
}

/// Every destination of an event gets one delivery of it, which waits for its first attempt
/// and carries the event as it stands; earlier deliveries stay.
pub proof fn law_each_destination_gets_one_delivery(
    before: Seq<WebhookDelivery>,
    after: Seq<WebhookDelivery>,
    urls: Seq<Seq<char>>,
    event: Event,
    now: Timestamp,
    tenant: Seq<char>,
    max_attempts: u32,
    i: int,
)
    requires
        enqueued(before, after, urls, event, now, Some(tenant), max_attempts),
        0 <= i < after.len(),
    ensures
        after.len() == before.len() + urls.len(),
        i < before.len() ==> after[i] == before[i],
        i >= before.len() ==> {
            let d = after[i];
            &&& d.url@ == urls[i - before.len()]
            &&& d.event_id == event.id && d.event_type == event.event_type
            &&& d.payload_json@ == json_text(event_document(event))
            &&& d.status is Pending && d.attempts == 0 && d.max_attempts == max_attempts
            &&& d.next_attempt_at == now && d.created_at == now && d.updated_at == now
            &&& d.delivered_at is None && d.last_error is None && d.last_status_code is None
            &&& d.tenant_id@ == tenant
        },
{
    if i < before.len() {
        assert(after.take(before.len() as int)[i] == after[i]);
    } else {
        assert(after[before.len() + (i - before.len())] == after[i]);
    }
}

/// A new transaction belongs to its caller and its intent, in the state that it is opened in,
/// and holds nothing yet: no party, no position, no sum, no order and no reference.
pub proof fn law_new_transactions_are_blank(
    t: Transaction,
    input: IntentInput,
    state: TransactionState,
    now: Timestamp,
    fresh_id: String,
)
    requires
        opened(t, input, state, now, fresh_id),
    ensures
        input.envelope.transaction_id matches Some(id) ==> t.id == id,
        input.envelope.transaction_id is None ==> t.id == fresh_id,
        t.state == state && t.agent_id == input.agent.raw && t.tenant_id == input.tenant.tenant_id,
        t.mandate_jti == input.envelope.mandate_jti && t.jurisdiction
            == input.envelope.context.jurisdiction,
        input.envelope.context.currency matches Some(c) ==> t.currency@ == c@,
        input.envelope.context.currency is None ==> t.currency@ == "USD"@,
        t.buyer.first_name is None && t.buyer.last_name is None && t.buyer.email is None
            && t.buyer.phone_number is None && t.buyer.principal_did is None,
        t.ship_to is None && t.bill_to is None && t.order_id is None && t.quote_expires_at is None,
        t.line_items@.len() == 0 && t.totals.subtotal is None && t.totals.discount is None
            && t.totals.shipping is None && t.totals.tax is None && t.totals.total is None,
        t.created_at == now && t.updated_at == now,
        t.external_refs@.dom() =~= Set::empty(),
{
}

/// A row of another tenant, or of none, is missing, and says which.
pub proof fn law_missing_rows_are_named(
    m: Map<Seq<char>, Transaction>,
    s: Map<Seq<char>, Subscription>,
    q: Map<Seq<char>, PeerQuote>,
    id: Seq<char>,
    tenant: Seq<char>,
)
    ensures
        owns_transaction(m, id, tenant) <==> m.contains_key(id) && m[id].tenant_id@ == tenant,
        owns_subscription(s, id, tenant) <==> s.contains_key(id) && s[id].tenant_id@ == tenant,
        owns_peer_quote(q, id, tenant) <==> q.contains_key(id) && q[id].tenant_id@ == tenant,
        missing("transaction"@, id) == ErrorView::ResourceNotFound("transaction "@ + id),
        missing("subscription"@, id) == ErrorView::ResourceNotFound("subscription "@ + id),
        missing("peer_quote"@, id) == ErrorView::ResourceNotFound("peer_quote "@ + id),
{
    reveal_strlit("transaction");
    reveal_strlit("transaction ");
    reveal_strlit("subscription");
    reveal_strlit("subscription ");
    reveal_strlit("peer_quote");
    reveal_strlit("peer_quote ");
    reveal_strlit(" ");
    assert("transaction"@ + " "@ =~= "transaction "@);
    assert("subscription"@ + " "@ =~= "subscription "@);
    assert("peer_quote"@ + " "@ =~= "peer_quote "@);
}

} // verus!
