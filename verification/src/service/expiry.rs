//! The sweep that expires quotes nobody acted on.
//!
//! Without it a stale quote could be authorized long after at its old price.

use vstd::prelude::*;

use crate::crypto::{fresh_id, is_fresh_id};
use crate::events::Event;
use crate::json::{lemma_member_found, opt_str_view, Json, JsonView, ObjectBuilder};
use crate::models::{PeerQuote, PeerQuoteStatus, Transaction, TransactionState};
use crate::service::a2a::peer_quote_expired;
use crate::service::helpers::{awaits_expiry, expired_at, quote_over};
use crate::service::IcpService;
use crate::table::{lemma_picked, picked, Table};
use crate::text::{opt_text, string_views};
use crate::time::{rfc3339, rfc3339_text, Timestamp};

verus! {

/// An event together with the tenant that it belongs to.
#[derive(Debug)]
pub struct TenantEvent {
    pub event: Event,
    pub tenant_id: String,
}

/// What one sweep did.
#[derive(Debug, Clone, Copy, PartialEq, Eq, Structural)]
pub struct ExpiryTickReport {
    /// Transactions that expired.
    pub transactions_expired: usize,
    /// Quotes between agents that expired.
    pub peer_quotes_expired: usize,
}

/// The text of an instant in a payload.
pub open spec fn time_view(nanos: int) -> JsonView {
    JsonView::Str(rfc3339_text(nanos, true))
}

/// A number, or null when there is none.
pub open spec fn opt_int_view(n: Option<i64>) -> JsonView {
    match n {
        Some(n) => JsonView::Int(n as int),
        None => JsonView::Null,
    }
}

/// The amount of the total, when there is one.
pub open spec fn total_amount(t: Transaction) -> Option<i64> {
    match t.totals.total {
        Some(m) => Some(m.amount_minor),
        None => None,
    }
}

/// The currency of the total, or that of the transaction.
pub open spec fn total_currency(t: Transaction) -> Seq<char> {
    match t.totals.total {
        Some(m) => m.currency@,
        None => t.currency@,
    }
}

/// The amount and the currency of the total, as far as there is one.
pub(crate) fn shown_total(t: &Transaction) -> (r: (Option<i64>, String))
    ensures
        r.0 == total_amount(*t),
        r.1@ == total_currency(*t),
{
    match &t.totals.total {
        Some(m) => (Some(m.amount_minor), m.currency.clone()),
        None => (None, t.currency.clone()),
    }
}

// ---------------------------------------------------------------------------
// What is due
// ---------------------------------------------------------------------------

/// Whether the sweep expires this transaction.
pub open spec fn transaction_due(t: Transaction, now: int) -> bool {
    quote_over(t, now) && awaits_expiry(t)
}

/// Whether the sweep expires this quote between agents.
pub open spec fn peer_quote_due(q: PeerQuote, now: int) -> bool {
    q.expires_at@ <= now && (q.status is Pending || q.status is Quoted)
}

/// The transactions that a sweep at `now` expires.
pub open spec fn transactions_due(now: int) -> spec_fn(Transaction) -> bool {
    |t: Transaction| transaction_due(t, now)
}

/// The quotes between agents that a sweep at `now` expires.
pub open spec fn peer_quotes_due(now: int) -> spec_fn(PeerQuote) -> bool {
    |q: PeerQuote| peer_quote_due(q, now)
}

/// The ids of the transactions that are due, in the order in which they are
/// kept.
pub open spec fn due_transactions(m: Table<Transaction>, now: int) -> Seq<Seq<char>> {
    picked(m.seq(), transactions_due(now), m.seq().len() as int)
}

/// The ids of the quotes between agents that are due, in the order in which they
/// are kept.
pub open spec fn due_peer_quotes(m: Table<PeerQuote>, now: int) -> Seq<Seq<char>> {
    picked(m.seq(), peer_quotes_due(now), m.seq().len() as int)
}

/// The ids of the transactions that are due.
pub fn list_transactions_due(m: &Table<Transaction>, now: Timestamp) -> (r: Vec<String>)
    ensures
        string_views(r@) == due_transactions(*m, now@),
        string_views(r@).no_duplicates(),
        forall|k: Seq<char>| #[trigger]
            string_views(r@).contains(k) <==> m@.contains_key(k) && transaction_due(m@[k], now@),
{
    let n: usize = m.len();
    let mut out: Vec<String> = Vec::new();
    let mut i: usize = 0;
    assert(string_views(out@) =~= Seq::<Seq<char>>::empty());
    while i < n
        invariant
            i <= n == m.seq().len(),
            string_views(out@) == picked(m.seq(), transactions_due(now@), i as int),
        decreases n - i,
    {
        let e = m.entry_at(i);
        let over = match &e.value.quote_expires_at {
            Some(at) => at.at_or_before(&now),
            None => false,
        };
        if over && (e.value.state == TransactionState::Draft || e.value.state
            == TransactionState::Quoted) {
            let ghost before = out@;
            out.push(e.key.clone());
            assert(string_views(out@) =~= string_views(before).push(e.key@));
        }
        i += 1;
    }
    proof {
        lemma_picked(m.seq(), transactions_due(now@));
    }
    out
}

/// The ids of the quotes between agents that are due.
pub fn list_peer_quotes_due(m: &Table<PeerQuote>, now: Timestamp) -> (r: Vec<String>)
    ensures
        string_views(r@) == due_peer_quotes(*m, now@),
        string_views(r@).no_duplicates(),
        forall|k: Seq<char>| #[trigger]
            string_views(r@).contains(k) <==> m@.contains_key(k) && peer_quote_due(m@[k], now@),
{
    let n: usize = m.len();
    let mut out: Vec<String> = Vec::new();
    let mut i: usize = 0;
    assert(string_views(out@) =~= Seq::<Seq<char>>::empty());
    while i < n
        invariant
            i <= n == m.seq().len(),
            string_views(out@) == picked(m.seq(), peer_quotes_due(now@), i as int),
        decreases n - i,
    {
        let e = m.entry_at(i);
        if e.value.expires_at.at_or_before(&now) && (e.value.status == PeerQuoteStatus::Pending
            || e.value.status == PeerQuoteStatus::Quoted) {
            let ghost before = out@;
            out.push(e.key.clone());
            assert(string_views(out@) =~= string_views(before).push(e.key@));
        }
        i += 1;
    }
    proof {
        lemma_picked(m.seq(), peer_quotes_due(now@));
    }
    out
}

// ---------------------------------------------------------------------------
// Events
// ---------------------------------------------------------------------------

/// The payload of the event for an expired transaction: what it was before, and
/// what is to be done.
pub open spec fn transaction_expired_payload(t: Transaction, now: int) -> JsonView {
    JsonView::Object(
        Seq::empty().push(("transaction_id"@, JsonView::Str(t.id@))).push(
            ("expired_at"@, time_view(now)),
        ).push(("previous_state"@, JsonView::Str(t.state.name()))).push(
            (
                "quote_expires_at"@,
                match t.quote_expires_at {
                    Some(at) => time_view(at@),
                    None => JsonView::Null,
                },
            ),
        ).push(("buyer_email"@, opt_str_view(opt_text(t.buyer.email)))).push(
            ("amount_minor"@, opt_int_view(total_amount(t))),
        ).push(("currency"@, JsonView::Str(total_currency(t)))).push(
            ("next_action"@, JsonView::Str("re_quote_required"@)),
        ),
    )
}

/// Whether this is the event for a transaction that expired.
pub open spec fn tells_expired_transaction(e: TenantEvent, t: Transaction, now: Timestamp) -> bool {
    &&& is_fresh_id(e.event.id@, "evt_"@)
    &&& e.event.event_type@ == "transaction.expired"@
    &&& e.event.transaction_id == Some(t.id)
    &&& e.event.order_id is None
    &&& e.event.agent_id == Some(t.agent_id)
    &&& e.event.occurred_at == now
    &&& e.event.payload@ == transaction_expired_payload(t, now@)
    &&& e.tenant_id == t.tenant_id
}

fn transaction_expired_event(t: &Transaction, now: Timestamp) -> (e: TenantEvent)
    ensures
        tells_expired_transaction(e, *t, now),
{
    let at = rfc3339(now, true);
    let deadline = match &t.quote_expires_at {
        Some(at) => Json::Str(rfc3339(*at, true)),
        None => Json::Null,
    };
    let (amount, currency) = shown_total(t);
    let payload = ObjectBuilder::new().put_str("transaction_id", t.id.as_str()).put_str(
        "expired_at",
        at.as_str(),
    ).put_str("previous_state", t.state.wire_name()).put("quote_expires_at", deadline).put_opt_str(
        "buyer_email",
        &t.buyer.email,
    ).put_opt_int("amount_minor", amount).put_str("currency", currency.as_str()).put_str(
        "next_action",
        "re_quote_required",
    ).build();
    let event = Event {
        id: fresh_id("evt_"),
        event_type: String::from_str("transaction.expired"),
        transaction_id: Some(t.id.clone()),
        order_id: None,
        agent_id: Some(t.agent_id.clone()),
        occurred_at: now,
        payload,
    };
    TenantEvent { event, tenant_id: t.tenant_id.clone() }
}

/// The payload of the event for an expired quote between agents.
pub open spec fn peer_quote_expired_payload(q: PeerQuote, now: int) -> JsonView {
    JsonView::Object(
        Seq::empty().push(("peer_quote_id"@, JsonView::Str(q.id@))).push(
            ("expired_at"@, time_view(now)),
        ).push(("previous_status"@, JsonView::Str(q.status.name()))).push(
            ("requester_agent_id"@, JsonView::Str(q.requester_agent_id@)),
        ).push(("peer_agent_id"@, JsonView::Str(q.peer_agent_id@))).push(
            ("service_kind"@, JsonView::Str(q.service.kind.name())),
        ).push(
            (
                "price_amount_minor"@,
                match q.price {
                    Some(p) => JsonView::Int(p.amount_minor as int),
                    None => JsonView::Null,
                },
            ),
        ).push(
            (
                "price_currency"@,
                match q.price {
                    Some(p) => JsonView::Str(p.currency@),
                    None => JsonView::Null,
                },
            ),
        ).push(("next_action"@, JsonView::Str("re_quote_required"@))),
    )
}

/// Whether this is the event for a quote between agents that expired.
pub open spec fn tells_expired_peer_quote(e: TenantEvent, q: PeerQuote, now: Timestamp) -> bool {
    &&& is_fresh_id(e.event.id@, "evt_"@)
    &&& e.event.event_type@ == "peer_quote.expired"@
    &&& e.event.transaction_id is None
    &&& e.event.order_id is None
    &&& e.event.agent_id == Some(q.requester_agent_id)
    &&& e.event.occurred_at == now
    &&& e.event.payload@ == peer_quote_expired_payload(q, now@)
    &&& e.tenant_id == q.tenant_id
}

fn peer_quote_expired_event(q: &PeerQuote, now: Timestamp) -> (e: TenantEvent)
    ensures
        tells_expired_peer_quote(e, *q, now),
{
    let at = rfc3339(now, true);
    let (amount, currency) = match &q.price {
        Some(p) => (Json::Int(p.amount_minor), Json::Str(p.currency.clone())),
        None => (Json::Null, Json::Null),
    };
    let payload = ObjectBuilder::new().put_str("peer_quote_id", q.id.as_str()).put_str(
        "expired_at",
        at.as_str(),
    ).put_str("previous_status", q.status.wire_name()).put_str(
        "requester_agent_id",
        q.requester_agent_id.as_str(),
    ).put_str("peer_agent_id", q.peer_agent_id.as_str()).put_str(
        "service_kind",
        q.service.kind.wire_name(),
    ).put("price_amount_minor", amount).put("price_currency", currency).put_str(
        "next_action",
        "re_quote_required",
    ).build();
    let event = Event {
        id: fresh_id("evt_"),
        event_type: String::from_str("peer_quote.expired"),
        transaction_id: None,
        order_id: None,
        agent_id: Some(q.requester_agent_id.clone()),
        occurred_at: now,
        payload,
    };
    TenantEvent { event, tenant_id: q.tenant_id.clone() }
}

// ---------------------------------------------------------------------------
// The sweep
// ---------------------------------------------------------------------------

/// The transactions after those under the first `n` of the keys have expired.
spec fn partly_swept(
    m: Map<Seq<char>, Transaction>,
    keys: Seq<Seq<char>>,
    n: int,
    now: Timestamp,
) -> Map<Seq<char>, Transaction> {
    Map::new(
        |k: Seq<char>| m.contains_key(k),
        |k: Seq<char>|
            if keys.take(n).contains(k) {
                expired_at(m[k], now)
            } else {
                m[k]
            },
    )
}

/// The quotes between agents after those under the first `n` of the keys have
/// expired.
spec fn partly_swept_quotes(
    m: Map<Seq<char>, PeerQuote>,
    keys: Seq<Seq<char>>,
    n: int,
    now: Timestamp,
) -> Map<Seq<char>, PeerQuote> {
    Map::new(
        |k: Seq<char>| m.contains_key(k),
        |k: Seq<char>|
            if keys.take(n).contains(k) {
                peer_quote_expired(m[k], now)
            } else {
                m[k]
            },
    )
}

/// The transactions after a sweep: those that are due have expired, the others
/// are as they were.
pub open spec fn swept(m: Map<Seq<char>, Transaction>, now: Timestamp) -> Map<
    Seq<char>,
    Transaction,
> {
    Map::new(
        |k: Seq<char>| m.contains_key(k),
        |k: Seq<char>|
            if transaction_due(m[k], now@) {
                expired_at(m[k], now)
            } else {
                m[k]
            },
    )
}

/// The quotes between agents after a sweep.
pub open spec fn swept_quotes(m: Map<Seq<char>, PeerQuote>, now: Timestamp) -> Map<
    Seq<char>,
    PeerQuote,
> {
    Map::new(
        |k: Seq<char>| m.contains_key(k),
        |k: Seq<char>|
            if peer_quote_due(m[k], now@) {
                peer_quote_expired(m[k], now)
            } else {
                m[k]
            },
    )
}

/// Whether there is one event for each of the transactions that expired.
pub open spec fn tells_expired_transactions(
    events: Seq<TenantEvent>,
    keys: Seq<Seq<char>>,
    m: Map<Seq<char>, Transaction>,
    now: Timestamp,
) -> bool {
    &&& events.len() == keys.len()
    &&& forall|i: int|
        0 <= i < keys.len() ==> tells_expired_transaction(#[trigger] events[i], m[keys[i]], now)
}

/// Whether there is one event for each of the quotes between agents that
/// expired.
pub open spec fn tells_expired_peer_quotes(
    events: Seq<TenantEvent>,
    keys: Seq<Seq<char>>,
    m: Map<Seq<char>, PeerQuote>,
    now: Timestamp,
) -> bool {
    &&& events.len() == keys.len()
    &&& forall|i: int|
        0 <= i < keys.len() ==> tells_expired_peer_quote(#[trigger] events[i], m[keys[i]], now)
}

/// Whether the keys of the transactions that are due are all of them, each once.
pub open spec fn names_due_transactions(service: IcpService, now: int) -> bool {
    let keys = due_transactions(service.transactions, now);
    let m = service.transactions@;
    &&& keys.no_duplicates()
    &&& forall|k: Seq<char>| #[trigger]
        keys.contains(k) <==> m.contains_key(k) && transaction_due(m[k], now)
}

/// Whether the keys of the quotes between agents that are due are all of them, each once.
pub open spec fn names_due_peer_quotes(service: IcpService, now: int) -> bool {
    let keys = due_peer_quotes(service.peer_quotes, now);
    let m = service.peer_quotes@;
    &&& keys.no_duplicates()
    &&& forall|k: Seq<char>| #[trigger]
        keys.contains(k) <==> m.contains_key(k) && peer_quote_due(m[k], now)
}

/// Whether these are the counts and the events of a sweep: one event for each row that
/// expired, in the order in which they are kept, the transactions first.
pub open spec fn tells_sweep(
    service: IcpService,
    now: Timestamp,
    report: ExpiryTickReport,
    events: Seq<TenantEvent>,
) -> bool {
    let transactions = due_transactions(service.transactions, now@);
    let quotes = due_peer_quotes(service.peer_quotes, now@);
    &&& names_due_transactions(service, now@)
    &&& names_due_peer_quotes(service, now@)
    &&& report.transactions_expired == transactions.len()
    &&& report.peer_quotes_expired == quotes.len()
    &&& events.len() == transactions.len() + quotes.len()
    &&& tells_expired_transactions(
        events.take(transactions.len() as int),
        transactions,
        service.transactions@,
        now,
    )
    &&& tells_expired_peer_quotes(
        events.skip(transactions.len() as int),
        quotes,
        service.peer_quotes@,
        now,
    )
}

impl IcpService {
    fn expire_transactions(&mut self, now: Timestamp) -> (events: Vec<TenantEvent>)
        requires
            old(self).wf(),
        ensures
            final(self).wf(),
            *final(self) == (IcpService { transactions: final(self).transactions, ..*old(self) }),
            final(self).transactions@ == swept(old(self).transactions@, now),
            names_due_transactions(*old(self), now@),
            tells_expired_transactions(
                events@,
                due_transactions(old(self).transactions, now@),
                old(self).transactions@,
                now,
            ),
    {
        let ghost m = self.transactions@;
        let due = list_transactions_due(&self.transactions, now);
        let ghost keys = string_views(due@);
        let mut events: Vec<TenantEvent> = Vec::new();
        let mut i: usize = 0;
        assert(self.transactions@ =~= partly_swept(m, keys, 0, now));
        while i < due.len()
            invariant
                i <= due@.len() == keys.len(),
                keys == string_views(due@),
                keys.no_duplicates(),
                forall|k: Seq<char>| #[trigger]
                    keys.contains(k) <==> m.contains_key(k) && transaction_due(m[k], now@),
                self.wf(),
                *self == (IcpService { transactions: self.transactions, ..*old(self) }),
                m == old(self).transactions@,
                self.transactions@ == partly_swept(m, keys, i as int, now),
                events@.len() == i,
                forall|j: int|
                    0 <= j < i ==> tells_expired_transaction(
                        #[trigger] events@[j],
                        m[keys[j]],
                        now,
                    ),
            decreases due@.len() - i,
        {
            let ghost key = keys[i as int];
            let ghost before = self.transactions@;
            assert(keys.contains(key));
            assert(!keys.take(i as int).contains(key));
            assert(before.contains_key(key) && before[key] == m[key]);
            match self.take_transaction(due[i].as_str()) {
                Some(mut t) => {
                    events.push(transaction_expired_event(&t, now));
                    t.state = TransactionState::Expired;
                    t.updated_at = now;
                    self.put_transaction(t);
                    proof {
                        assert(t == expired_at(m[key], now));
                        assert forall|k: Seq<char>| #[trigger]
                            keys.take(i as int + 1).contains(k) <==> keys.take(i as int).contains(k)
                            || k == key by {
                            assert(keys.take(i as int + 1) =~= keys.take(i as int).push(key));
                            if k == key {
                                assert(keys.take(i as int).push(key)[i as int] == k);
                            }
                            if keys.take(i as int).contains(k) {
                                let at = keys.take(i as int).index_of(k);
                                assert(keys.take(i as int).push(key)[at] == k);
                            }
                        }
                        assert(self.transactions@ =~= partly_swept(m, keys, i as int + 1, now));
                    }
                },
                None => {},
            }
            i += 1;
        }
        assert(keys.take(keys.len() as int) =~= keys);
        assert(self.transactions@ =~= swept(m, now));
        events
    }

    fn expire_peer_quotes(&mut self, now: Timestamp) -> (events: Vec<TenantEvent>)
        requires
            old(self).wf(),
        ensures
            final(self).wf(),
            *final(self) == (IcpService { peer_quotes: final(self).peer_quotes, ..*old(self) }),
            final(self).peer_quotes@ == swept_quotes(old(self).peer_quotes@, now),
            names_due_peer_quotes(*old(self), now@),
            tells_expired_peer_quotes(
                events@,
                due_peer_quotes(old(self).peer_quotes, now@),
                old(self).peer_quotes@,
                now,
            ),
    {
        let ghost m = self.peer_quotes@;
        let due = list_peer_quotes_due(&self.peer_quotes, now);
        let ghost keys = string_views(due@);
        let mut events: Vec<TenantEvent> = Vec::new();
        let mut i: usize = 0;
        assert(self.peer_quotes@ =~= partly_swept_quotes(m, keys, 0, now));
        while i < due.len()
            invariant
                i <= due@.len() == keys.len(),
                keys == string_views(due@),
                keys.no_duplicates(),
                forall|k: Seq<char>| #[trigger]
                    keys.contains(k) <==> m.contains_key(k) && peer_quote_due(m[k], now@),
                self.wf(),
                *self == (IcpService { peer_quotes: self.peer_quotes, ..*old(self) }),
                m == old(self).peer_quotes@,
                self.peer_quotes@ == partly_swept_quotes(m, keys, i as int, now),
                events@.len() == i,
                forall|j: int|
                    0 <= j < i ==> tells_expired_peer_quote(#[trigger] events@[j], m[keys[j]], now),
            decreases due@.len() - i,
        {
            let ghost key = keys[i as int];
            let ghost before = self.peer_quotes@;
            assert(keys.contains(key));
            assert(!keys.take(i as int).contains(key));
            assert(before.contains_key(key) && before[key] == m[key]);
            match self.take_peer_quote(due[i].as_str()) {
                Some(mut q) => {
                    events.push(peer_quote_expired_event(&q, now));
                    q.status = PeerQuoteStatus::Expired;
                    q.updated_at = now;
                    self.put_peer_quote(q);
                    proof {
                        assert(q == peer_quote_expired(m[key], now));
                        assert forall|k: Seq<char>| #[trigger]
                            keys.take(i as int + 1).contains(k) <==> keys.take(i as int).contains(k)
                            || k == key by {
                            assert(keys.take(i as int + 1) =~= keys.take(i as int).push(key));
                            if k == key {
                                assert(keys.take(i as int).push(key)[i as int] == k);
                            }
                            if keys.take(i as int).contains(k) {
                                let at = keys.take(i as int).index_of(k);
                                assert(keys.take(i as int).push(key)[at] == k);
                            }
                        }
                        assert(self.peer_quotes@ =~= partly_swept_quotes(
                            m,
                            keys,
                            i as int + 1,
                            now,
                        ));
                    }
                },
                None => {},
            }
            i += 1;
        }
        assert(keys.take(keys.len() as int) =~= keys);
        assert(self.peer_quotes@ =~= swept_quotes(m, now));
        events
    }

    /// Expires every transaction and every quote between agents whose deadline
    /// has passed and that nobody acted on. There is one event for each, in the
    /// order in which they are kept, the transactions first.
    pub fn tick_expiries(&mut self, now: Timestamp) -> (r: (ExpiryTickReport, Vec<TenantEvent>))
        requires
            old(self).wf(),
        ensures
            final(self).wf(),
            *final(self) == (IcpService {
                transactions: final(self).transactions,
                peer_quotes: final(self).peer_quotes,
                ..*old(self)
            }),
            final(self).transactions@ == swept(old(self).transactions@, now),
            final(self).peer_quotes@ == swept_quotes(old(self).peer_quotes@, now),
            tells_sweep(*old(self), now, r.0, r.1@),
    {
        let mut events = self.expire_transactions(now);
        let ghost first = events@;
        let transactions_expired: usize = events.len();
        let mut more = self.expire_peer_quotes(now);
        let ghost second = more@;
        let peer_quotes_expired: usize = more.len();
        events.append(&mut more);
        assert(events@.take(first.len() as int) =~= first);
        assert(events@.skip(first.len() as int) =~= second);
        (ExpiryTickReport { transactions_expired, peer_quotes_expired }, events)
    }
}

// ---------------------------------------------------------------------------
// Laws
// ---------------------------------------------------------------------------

/// After a sweep nothing is due any more, so a second sweep changes nothing.
pub proof fn law_sweeping_twice_changes_nothing(
    m: Map<Seq<char>, Transaction>,
    q: Map<Seq<char>, PeerQuote>,
    now: Timestamp,
)
    ensures
        swept(swept(m, now), now) == swept(m, now),
        swept_quotes(swept_quotes(q, now), now) == swept_quotes(q, now),
{
    assert(swept(swept(m, now), now) =~= swept(m, now));
    assert(swept_quotes(swept_quotes(q, now), now) =~= swept_quotes(q, now));
}

/// A sweep touches only quotes that nobody acted on: a transaction that is
/// authorized or further, and a quote between agents that is settled, stay as
/// they are.
pub proof fn law_sweep_spares_what_moved_on(
    m: Map<Seq<char>, Transaction>,
    q: Map<Seq<char>, PeerQuote>,
    k: Seq<char>,
    now: Timestamp,
)
    ensures
        m.contains_key(k) && !(m[k].state is Draft) && !(m[k].state is Quoted) ==> swept(
            m,
            now,
        ).contains_key(k) && swept(m, now)[k] == m[k],
        q.contains_key(k) && q[k].status.terminal() ==> swept_quotes(q, now).contains_key(k)
            && swept_quotes(q, now)[k] == q[k],
{
}

/// After a sweep no quote that is over can be authorized or bought.
pub proof fn law_swept_quotes_are_closed(
    m: Map<Seq<char>, Transaction>,
    k: Seq<char>,
    now: Timestamp,
)
    requires
        m.contains_key(k),
        quote_over(m[k], now@),
    ensures
        !(swept(m, now)[k].state is Draft) && !(swept(m, now)[k].state is Quoted),
{
}

/// A sweep expires exactly the drafts and quotes whose deadline has come and the quotes
/// between agents that are still waiting when theirs has. Of these it changes the state and
/// the date of change, and nothing else; no row comes or goes.
pub proof fn law_a_sweep_expires_what_is_over(
    m: Map<Seq<char>, Transaction>,
    q: Map<Seq<char>, PeerQuote>,
    now: Timestamp,
    k: Seq<char>,
)
    ensures
        swept(m, now).contains_key(k) <==> m.contains_key(k),
        swept_quotes(q, now).contains_key(k) <==> q.contains_key(k),
        m.contains_key(k) ==> {
            let over = (m[k].state is Draft || m[k].state is Quoted) && (
            m[k].quote_expires_at matches Some(at) && at@ <= now@);
            &&& over ==> swept(m, now)[k] == (Transaction {
                state: TransactionState::Expired,
                updated_at: now,
                ..m[k]
            })
            &&& !over ==> swept(m, now)[k] == m[k]
        },
        q.contains_key(k) ==> {
            let over = (q[k].status is Pending || q[k].status is Quoted) && q[k].expires_at@
                <= now@;
            &&& over ==> swept_quotes(q, now)[k] == (PeerQuote {
                status: PeerQuoteStatus::Expired,
                updated_at: now,
                ..q[k]
            })
            &&& !over ==> swept_quotes(q, now)[k] == q[k]
        },
{
}

/// A sweep tells of each row that it expires, once, to the tenant that the row belongs to,
/// and of nothing else; its counts are those of the rows.
pub proof fn law_a_sweep_tells_what_it_expired(
    service: IcpService,
    now: Timestamp,
    report: ExpiryTickReport,
    events: Seq<TenantEvent>,
    k: Seq<char>,
)
    requires
        tells_sweep(service, now, report, events),
    ensures
        events.len() == report.transactions_expired + report.peer_quotes_expired,
        report.transactions_expired == service.transactions@.dom().filter(
            |x: Seq<char>|
                {
                    let t = service.transactions@[x];
                    (t.state is Draft || t.state is Quoted) && (
                    t.quote_expires_at matches Some(at) && at@ <= now@)
                },
        ).len(),
        report.peer_quotes_expired == service.peer_quotes@.dom().filter(
            |x: Seq<char>|
                {
                    let q = service.peer_quotes@[x];
                    (q.status is Pending || q.status is Quoted) && q.expires_at@ <= now@
                },
        ).len(),
        ({
            let t = service.transactions@[k];
            service.transactions@.contains_key(k) && (t.state is Draft || t.state is Quoted) && (
            t.quote_expires_at matches Some(at) && at@ <= now@)
        }) ==> exists|i: int|
            0 <= i < report.transactions_expired && tells_expired_transaction(
                #[trigger] events[i],
                service.transactions@[k],
                now,
            ),
        ({
            let q = service.peer_quotes@[k];
            service.peer_quotes@.contains_key(k) && (q.status is Pending || q.status is Quoted)
                && q.expires_at@ <= now@
        }) ==> exists|i: int|
            report.transactions_expired <= i < events.len() && tells_expired_peer_quote(
                #[trigger] events[i],
                service.peer_quotes@[k],
                now,
            ),
{
    let keys = due_transactions(service.transactions, now@);
    let quotes = due_peer_quotes(service.peer_quotes, now@);
    keys.unique_seq_to_set();
    quotes.unique_seq_to_set();
    assert(keys.to_set() =~= service.transactions@.dom().filter(
        |x: Seq<char>|
            {
                let t = service.transactions@[x];
                (t.state is Draft || t.state is Quoted) && (t.quote_expires_at matches Some(at)
                    && at@ <= now@)
            },
    ));
    assert(quotes.to_set() =~= service.peer_quotes@.dom().filter(
        |x: Seq<char>|
            {
                let q = service.peer_quotes@[x];
                (q.status is Pending || q.status is Quoted) && q.expires_at@ <= now@
            },
    ));
    if service.transactions@.contains_key(k) && transaction_due(service.transactions@[k], now@) {
        assert(keys.contains(k));
        let i = choose|i: int| 0 <= i < keys.len() && keys[i] == k;
        assert(tells_expired_transaction(
            events.take(keys.len() as int)[i],
            service.transactions@[keys[i]],
            now,
        ));
        assert(events.take(keys.len() as int)[i] == events[i]);
    }
    if service.peer_quotes@.contains_key(k) && peer_quote_due(service.peer_quotes@[k], now@) {
        assert(quotes.contains(k));
        let i = choose|i: int| 0 <= i < quotes.len() && quotes[i] == k;
        assert(tells_expired_peer_quote(
            events.skip(keys.len() as int)[i],
            service.peer_quotes@[quotes[i]],
            now,
        ));
        assert(events.skip(keys.len() as int)[i] == events[keys.len() + i]);
    }
}

/// What the event of an expired row says: which row, of which tenant and agent, and since
/// when.
pub proof fn law_expiry_events_name_their_row(
    e: TenantEvent,
    t: Transaction,
    f: TenantEvent,
    q: PeerQuote,
    now: Timestamp,
)
    requires
        tells_expired_transaction(e, t, now),
        tells_expired_peer_quote(f, q, now),
    ensures
        e.tenant_id == t.tenant_id && e.event.transaction_id == Some(t.id) && e.event.agent_id
            == Some(t.agent_id) && e.event.occurred_at == now && e.event.event_type@
            == "transaction.expired"@,
        e.event.payload@.member("transaction_id"@) == Some(JsonView::Str(t.id@)),
        f.tenant_id == q.tenant_id && f.event.transaction_id is None && f.event.agent_id == Some(
            q.requester_agent_id,
        ) && f.event.occurred_at == now && f.event.event_type@ == "peer_quote.expired"@,
        f.event.payload@.member("peer_quote_id"@) == Some(JsonView::Str(q.id@)),
{
    lemma_member_found(e.event.payload@->Object_0, "transaction_id"@, 0, 0);
    lemma_member_found(f.event.payload@->Object_0, "peer_quote_id"@, 0, 0);
}

} // verus!
