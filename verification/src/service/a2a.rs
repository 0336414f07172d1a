//! Commerce between agents: `a2a_quote` and `a2a_pay`.
//!
//! A quote between two agents is payable at once when the requester gives a
//! price, and waits for one otherwise. A payment either settles such a quote or
//! goes directly to a peer.

use vstd::prelude::*;

use crate::errors::{ApiError, ErrorView};
use crate::mandate::MandateEvaluation;
use crate::models::{
    A2aPayParams, A2aQuoteParams, Buyer, LineItem, Money, PeerQuote, PeerQuoteStatus, Totals,
    Transaction, TransactionState,
};
use crate::service::helpers::{
    blank_buyer, blank_totals, currency_of, gained, intent_currency, jti_of, mandate_id,
    mandate_usable, missing, owns_peer_quote, peer_quote_for_tenant, reservation,
};
use crate::service::{IcpService, IntentInput, Outcome};
use crate::table::Table;
use crate::text::{join2, join3, str_eq};
use crate::time::{representable, Span, Timestamp};

verus! {

// ---------------------------------------------------------------------------
// a2a_quote
// ---------------------------------------------------------------------------

/// How long a quote between agents is open, in seconds: five minutes, or what
/// the requester asks for between a second and a day.
pub open spec fn quote_lifetime(params: A2aQuoteParams) -> int {
    match params.expires_in_seconds {
        None => 300,
        Some(n) => if n < 1 {
            1
        } else if n > 86_400 {
            86_400
        } else {
            n as int
        },
    }
}

pub(crate) fn lifetime_seconds(params: &A2aQuoteParams) -> (r: i64)
    ensures
        r == quote_lifetime(*params),
        1 <= r <= 86_400,
{
    match params.expires_in_seconds {
        None => 300,
        Some(n) => if n < 1 {
            1
        } else if n > 86_400 {
            86_400
        } else {
            n as i64
        },
    }
}

/// Why a quote between agents cannot be opened.
pub open spec fn a2a_quote_error(params: A2aQuoteParams, agent: Seq<char>) -> Option<ErrorView> {
    if params.peer_agent_id@ == agent {
        Some(
            ErrorView::InvalidRequest(
                "a2a_quote: peer_agent_id must differ from the requester agent_id"@,
            ),
        )
    } else if params.price_hint matches Some(p) && p.amount_minor <= 0 {
        Some(
            ErrorView::InvalidRequest("a2a_quote.price_hint.amount_minor must be positive"@),
        )
    } else {
        None
    }
}

/// Whether this is the new quote between two agents.
pub open spec fn peer_quote_opened(
    q: PeerQuote,
    input: IntentInput,
    params: A2aQuoteParams,
    mandate: Option<&MandateEvaluation>,
    now: Timestamp,
    id: String,
) -> bool {
    &&& q.id == id
    &&& q.status == (if params.price_hint is Some {
        PeerQuoteStatus::Quoted
    } else {
        PeerQuoteStatus::Pending
    })
    &&& q.tenant_id == input.tenant.tenant_id
    &&& q.requester_agent_id == input.agent.raw
    &&& q.peer_agent_id == params.peer_agent_id
    &&& q.service.same_as(params.service)
    &&& q.price == params.price_hint
    &&& q.created_at == now
    &&& q.updated_at == now
    &&& q.expires_at@ == now@ + quote_lifetime(params) * 1_000_000_000
    &&& q.accepted_at is None
    &&& q.charge_transaction_id is None
    &&& q.mandate_jti == mandate_id(mandate)
    &&& q.reference_id == params.reference_id
}

/// Whether this is the draft that stands for a new quote between agents.
pub open spec fn quote_draft(
    t: Transaction,
    input: IntentInput,
    params: A2aQuoteParams,
    mandate: Option<&MandateEvaluation>,
    now: Timestamp,
    id: String,
    quote_id: String,
) -> bool {
    &&& t.id == id
    &&& t.state is Draft
    &&& t.agent_id == input.agent.raw
    &&& t.tenant_id == input.tenant.tenant_id
    &&& t.mandate_jti == mandate_id(mandate)
    &&& t.currency@ == (match params.price_hint {
        Some(p) => p.currency@,
        None => intent_currency(input),
    })
    &&& t.jurisdiction == input.envelope.context.jurisdiction
    &&& blank_buyer(t.buyer)
    &&& t.ship_to is None
    &&& t.bill_to is None
    &&& t.line_items@.len() == 0
    &&& blank_totals(t.totals)
    &&& t.order_id is None
    &&& t.quote_expires_at matches Some(at) && at@ == now@ + quote_lifetime(params) * 1_000_000_000
    &&& t.created_at == now
    &&& t.updated_at == now
    &&& t.external_refs@ == Map::<Seq<char>, String>::empty().insert("peer_quote_id"@, quote_id)
}

/// Whether the map gained this quote under its id, and nothing else happened to
/// it.
pub open spec fn gained_quote(
    before: Map<Seq<char>, PeerQuote>,
    after: Map<Seq<char>, PeerQuote>,
    q: PeerQuote,
) -> bool {
    &&& after == before.insert(q.id@, after[q.id@])
    &&& after[q.id@].same_as(q)
}

/// What opening a quote between agents does.
pub open spec fn a2a_quote_done(
    before: IcpService,
    after: IcpService,
    input: IntentInput,
    params: A2aQuoteParams,
    mandate: Option<&MandateEvaluation>,
    now: Timestamp,
    quote_id: String,
    transaction_id: String,
    r: Result<Outcome, ApiError>,
) -> bool {
    &&& after.wf()
    &&& after == (IcpService {
        transactions: after.transactions,
        peer_quotes: after.peer_quotes,
        ..before
    })
    &&& match r {
        Ok(o) => {
            &&& a2a_quote_error(params, input.agent.raw@) is None
            &&& quote_draft(
                o.transaction,
                input,
                params,
                mandate,
                now,
                transaction_id,
                quote_id,
            )
            &&& gained(before.transactions@, after.transactions@, o.transaction)
            &&& o.peer_quote matches Some(q) && peer_quote_opened(
                q,
                input,
                params,
                mandate,
                now,
                quote_id,
            ) && gained_quote(before.peer_quotes@, after.peer_quotes@, q)
            &&& o.order is None && o.subscription is None
        },
        Err(e) => {
            &&& a2a_quote_error(params, input.agent.raw@) == Some(e@)
            &&& after == before
        },
    }
}

impl IcpService {
    /// Opens a quote between two agents, together with a draft that refers to
    /// it.
    pub fn do_a2a_quote(
        &mut self,
        input: &IntentInput,
        params: A2aQuoteParams,
        mandate: Option<&MandateEvaluation>,
        now: Timestamp,
        quote_id: String,
        transaction_id: String,
    ) -> (r: Result<Outcome, ApiError>)
        requires
            old(self).wf(),
            representable(now@ + quote_lifetime(params) * 1_000_000_000),
        ensures
            a2a_quote_done(*old(self), *final(self), *input, params, mandate, now, quote_id, transaction_id, r),
    {
        if str_eq(params.peer_agent_id.as_str(), input.agent.raw.as_str()) {
            return Err(
                ApiError::InvalidRequest(
                    String::from_str(
                        "a2a_quote: peer_agent_id must differ from the requester agent_id",
                    ),
                ),
            );
        }
        let expires_at = now.plus(Span::seconds(lifetime_seconds(&params)));
        let (status, currency) = match &params.price_hint {
            Some(p) => {
                if p.amount_minor <= 0 {
                    return Err(
                        ApiError::InvalidRequest(
                            String::from_str("a2a_quote.price_hint.amount_minor must be positive"),
                        ),
                    );
                }
                (PeerQuoteStatus::Quoted, p.currency.clone())
            },
            None => (PeerQuoteStatus::Pending, currency_of(input)),
        };
        let mut external_refs: Table<String> = Table::new();
        external_refs.insert(String::from_str("peer_quote_id"), quote_id.clone());
        let quote = PeerQuote {
            id: quote_id,
            status,
            tenant_id: input.tenant.tenant_id.clone(),
            requester_agent_id: input.agent.raw.clone(),
            peer_agent_id: params.peer_agent_id,
            service: params.service,
            price: params.price_hint,
            created_at: now,
            updated_at: now,
            expires_at,
            accepted_at: None,
            charge_transaction_id: None,
            mandate_jti: jti_of(mandate),
            reference_id: params.reference_id,
        };
        let txn = Transaction {
            id: transaction_id,
            state: TransactionState::Draft,
            agent_id: input.agent.raw.clone(),
            tenant_id: input.tenant.tenant_id.clone(),
            mandate_jti: jti_of(mandate),
            currency,
            jurisdiction: input.envelope.context.jurisdiction.clone(),
            buyer: Buyer::default(),
            ship_to: None,
            bill_to: None,
            line_items: Vec::new(),
            totals: Totals::default(),
            order_id: None,
            quote_expires_at: Some(expires_at),
            created_at: now,
            updated_at: now,
            external_refs,
        };
        let shown_quote = self.keep_peer_quote(quote);
        let shown = self.keep_transaction(txn);
        Ok(
            Outcome {
                transaction: shown,
                order: None,
                subscription: None,
                peer_quote: Some(shown_quote),
            },
        )
    }
}

// ---------------------------------------------------------------------------
// a2a_pay
// ---------------------------------------------------------------------------

/// Why a quote between agents cannot be paid, when it is not over.
pub open spec fn quote_pay_error(
    m: Map<Seq<char>, PeerQuote>,
    id: Seq<char>,
    tenant: Seq<char>,
    agent: Seq<char>,
    now: int,
) -> Option<ErrorView> {
    if !owns_peer_quote(m, id, tenant) {
        Some(missing("peer_quote"@, id))
    } else if m[id].requester_agent_id@ != agent {
        Some(
            ErrorView::PreconditionFailed(
                "a2a_pay: requester does not match the quote's requester_agent_id"@,
            ),
        )
    } else if !(m[id].status is Quoted) {
        Some(
            ErrorView::PreconditionFailed(
                "a2a_pay: peer_quote in state `"@ + m[id].status.name() + "` cannot be paid"@,
            ),
        )
    } else if m[id].expires_at@ <= now {
        Some(ErrorView::PreconditionFailed("a2a_pay: peer_quote has expired"@))
    } else if m[id].price is None {
        Some(ErrorView::PreconditionFailed("a2a_pay: peer_quote has no price set"@))
    } else if m[id].price->0.amount_minor <= 0 {
        Some(ErrorView::PreconditionFailed("a2a_pay: peer_quote price must be positive"@))
    } else {
        None
    }
}

/// Why a direct payment cannot be made.
pub open spec fn direct_pay_error(params: A2aPayParams, agent: Seq<char>) -> Option<ErrorView> {
    if params.peer_agent_id is None {
        Some(
            ErrorView::InvalidRequest(
                "a2a_pay: either peer_quote_id or peer_agent_id is required"@,
            ),
        )
    } else if params.amount is None {
        Some(ErrorView::InvalidRequest("a2a_pay: direct payment requires `amount`"@))
    } else if params.amount->0.amount_minor <= 0 {
        Some(ErrorView::InvalidRequest("a2a_pay.amount.amount_minor must be positive"@))
    } else if params.peer_agent_id->0@ == agent {
        Some(ErrorView::InvalidRequest("a2a_pay: cannot pay yourself"@))
    } else {
        None
    }
}

/// Why a payment between agents cannot be made, before the budget is asked.
pub open spec fn a2a_pay_error(
    m: Map<Seq<char>, PeerQuote>,
    params: A2aPayParams,
    production: bool,
    tenant: Seq<char>,
    agent: Seq<char>,
    now: int,
) -> Option<ErrorView> {
    if params.from@.len() == 0 {
        Some(ErrorView::InvalidRequest("a2a_pay: `from` is required"@))
    } else if production {
        Some(
            ErrorView::PreconditionFailed(
                "a2a_pay requires a production settlement adapter before it can complete"@,
            ),
        )
    } else {
        match params.peer_quote_id {
            Some(id) => quote_pay_error(m, id@, tenant, agent, now),
            None => direct_pay_error(params, agent),
        }
    }
}

/// Whether a payment runs into a quote that is over.
pub open spec fn meets_stale_quote(
    m: Map<Seq<char>, PeerQuote>,
    params: A2aPayParams,
    production: bool,
    tenant: Seq<char>,
    agent: Seq<char>,
    now: int,
) -> bool {
    &&& params.from@.len() > 0
    &&& !production
    &&& params.peer_quote_id matches Some(id) && owns_peer_quote(m, id@, tenant)
        && m[id@].requester_agent_id@ == agent && m[id@].status is Quoted && m[id@].expires_at@
        <= now
}

/// The quote in its expired state.
pub open spec fn peer_quote_expired(q: PeerQuote, now: Timestamp) -> PeerQuote {
    PeerQuote { status: PeerQuoteStatus::Expired, updated_at: now, ..q }
}

/// The quote once it is paid by the given charge.
pub open spec fn peer_quote_paid(q: PeerQuote, charge_id: String, now: Timestamp) -> PeerQuote {
    PeerQuote {
        status: PeerQuoteStatus::Accepted,
        accepted_at: Some(now),
        charge_transaction_id: Some(charge_id),
        updated_at: now,
        ..q
    }
}

/// Who is paid.
pub open spec fn payee(m: Map<Seq<char>, PeerQuote>, params: A2aPayParams) -> String {
    match params.peer_quote_id {
        Some(id) => m[id@].peer_agent_id,
        None => params.peer_agent_id->0,
    }
}

/// What is paid.
pub open spec fn payment(m: Map<Seq<char>, PeerQuote>, params: A2aPayParams) -> Money {
    match params.peer_quote_id {
        Some(id) => m[id@].price->0,
        None => params.amount->0,
    }
}

/// The texts that refer from a payment to its parties.
pub open spec fn payment_refs(params: A2aPayParams, peer: Seq<char>) -> Map<Seq<char>, Seq<char>> {
    let base = Map::<Seq<char>, Seq<char>>::empty().insert("peer_agent_id"@, peer);
    let quoted = match params.peer_quote_id {
        Some(id) => base.insert("peer_quote_id"@, id@),
        None => base,
    };
    let noted = match params.memo {
        Some(memo) => quoted.insert("memo"@, memo@),
        None => quoted,
    };
    noted.insert("a2a_from"@, params.from@)
}

/// Whether this is the completed transaction of a payment between agents: one
/// position, without tax.
pub open spec fn peer_payment(
    t: Transaction,
    input: IntentInput,
    params: A2aPayParams,
    mandate: Option<&MandateEvaluation>,
    peer: Seq<char>,
    money: Money,
    now: Timestamp,
    id: String,
) -> bool {
    &&& t.id == id
    &&& t.state is Completed
    &&& t.agent_id == input.agent.raw
    &&& t.tenant_id == input.tenant.tenant_id
    &&& t.mandate_jti == mandate_id(mandate)
    &&& t.currency == money.currency
    &&& t.jurisdiction == input.envelope.context.jurisdiction
    &&& blank_buyer(t.buyer)
    &&& t.ship_to is None
    &&& t.bill_to is None
    &&& t.line_items@.len() == 1
    &&& {
        let line = t.line_items@[0];
        &&& line.id@ == "li_a2a"@
        &&& line.sku@ == "a2a:"@ + peer
        &&& line.name@ == "Peer payment to "@ + peer
        &&& line.quantity == 1
        &&& line.unit_price == money
        &&& line.subtotal == money
        &&& line.tax is None
        &&& line.total == money
    }
    &&& t.totals == (Totals {
        subtotal: Some(money),
        discount: None,
        shipping: None,
        tax: None,
        total: Some(money),
    })
    &&& t.order_id is None
    &&& t.quote_expires_at is None
    &&& t.created_at == now
    &&& t.updated_at == now
    &&& t.external_refs@.map_values(|s: String| s@) == payment_refs(params, peer)
}

fn build_payment(
    input: &IntentInput,
    params: &A2aPayParams,
    mandate: Option<&MandateEvaluation>,
    peer: &str,
    money: Money,
    now: Timestamp,
    id: String,
) -> (t: Transaction)
    ensures
        peer_payment(t, *input, *params, mandate, peer@, money, now, id),
{
    let mut external_refs: Table<String> = Table::new();
    external_refs.insert(String::from_str("peer_agent_id"), String::from_str(peer));
    match &params.peer_quote_id {
        Some(id) => {
            external_refs.insert(String::from_str("peer_quote_id"), id.clone());
        },
        None => {},
    }
    match &params.memo {
        Some(memo) => {
            external_refs.insert(String::from_str("memo"), memo.clone());
        },
        None => {},
    }
    external_refs.insert(String::from_str("a2a_from"), params.from.clone());
    assert(external_refs@.map_values(|s: String| s@) =~= payment_refs(*params, peer@));
    let line = LineItem {
        id: String::from_str("li_a2a"),
        sku: join2("a2a:", peer),
        name: join2("Peer payment to ", peer),
        quantity: 1,
        unit_price: money.clone(),
        subtotal: money.clone(),
        tax: None,
        total: money.clone(),
    };
    let mut line_items: Vec<LineItem> = Vec::new();
    line_items.push(line);
    Transaction {
        id,
        state: TransactionState::Completed,
        agent_id: input.agent.raw.clone(),
        tenant_id: input.tenant.tenant_id.clone(),
        mandate_jti: jti_of(mandate),
        currency: money.currency.clone(),
        jurisdiction: input.envelope.context.jurisdiction.clone(),
        buyer: Buyer::default(),
        ship_to: None,
        bill_to: None,
        line_items,
        totals: Totals {
            subtotal: Some(money.clone()),
            discount: None,
            shipping: None,
            tax: None,
            total: Some(money),
        },
        order_id: None,
        quote_expires_at: None,
        created_at: now,
        updated_at: now,
        external_refs,
    }
}

/// What a payment between agents does.
pub open spec fn a2a_pay_done(
    before: IcpService,
    after: IcpService,
    input: IntentInput,
    params: A2aPayParams,
    mandate: Option<&MandateEvaluation>,
    now: Timestamp,
    transaction_id: String,
    r: Result<Outcome, ApiError>,
) -> bool {
    &&& after.wf()
    &&& after == (IcpService {
        transactions: after.transactions,
        peer_quotes: after.peer_quotes,
        mandates: after.mandates,
        ..before
    })
    &&& {
        let m = before.peer_quotes@;
        let tenant = input.tenant.tenant_id@;
        let agent = input.agent.raw@;
        let production = before.config.production;
        let error = a2a_pay_error(m, params, production, tenant, agent, now@);
        let money = payment(m, params);
        let reserved = reservation(
            before.mandates@,
            mandate,
            tenant,
            money.amount_minor as int,
            money.currency@,
            now@,
        );
        match r {
            Ok(o) => {
                &&& error is None
                &&& reserved.1 is None
                &&& after.mandates@ == reserved.0
                &&& peer_payment(
                    o.transaction,
                    input,
                    params,
                    mandate,
                    payee(m, params)@,
                    money,
                    now,
                    transaction_id,
                )
                &&& gained(before.transactions@, after.transactions@, o.transaction)
                &&& o.order is None && o.subscription is None
                &&& match params.peer_quote_id {
                    Some(id) => {
                        let paid = peer_quote_paid(m[id@], transaction_id, now);
                        &&& after.peer_quotes@ == m.insert(id@, paid)
                        &&& o.peer_quote matches Some(q) && q.same_as(paid)
                    },
                    None => after.peer_quotes@ == m && o.peer_quote is None,
                }
            },
            Err(e) => {
                &&& after.transactions@ == before.transactions@
                &&& if error is Some {
                    &&& error == Some(e@)
                    &&& after.mandates@ == before.mandates@
                    &&& if meets_stale_quote(m, params, production, tenant, agent, now@) {
                        let id = params.peer_quote_id->0@;
                        after.peer_quotes@ == m.insert(
                            id,
                            peer_quote_expired(m[id], now),
                        )
                    } else {
                        after.peer_quotes@ == m
                    }
                } else {
                    &&& reserved.1 == Some(e@)
                    &&& after.mandates@ == reserved.0
                    &&& after.peer_quotes@ == m
                }
            },
        }
    }
}

impl IcpService {
    fn quoted_payment(
        &self,
        quote_id: &str,
        input: &IntentInput,
        now: Timestamp,
    ) -> (r: Result<(String, Money), ApiError>)
        ensures
            ({
                let m = self.peer_quotes@;
                let error = quote_pay_error(
                    m,
                    quote_id@,
                    input.tenant.tenant_id@,
                    input.agent.raw@,
                    now@,
                );
                match r {
                    Ok((peer, money)) => error is None && peer == m[quote_id@].peer_agent_id
                        && Some(money) == m[quote_id@].price,
                    Err(e) => error == Some(e@),
                }
            }),
    {
        let q = match peer_quote_for_tenant(
            &self.peer_quotes,
            quote_id,
            input.tenant.tenant_id.as_str(),
        ) {
            Ok(q) => q,
            Err(e) => {
                return Err(e);
            },
        };
        if !str_eq(q.requester_agent_id.as_str(), input.agent.raw.as_str()) {
            return Err(
                ApiError::PreconditionFailed(
                    String::from_str(
                        "a2a_pay: requester does not match the quote's requester_agent_id",
                    ),
                ),
            );
        }
        if q.status != PeerQuoteStatus::Quoted {
            return Err(
                ApiError::PreconditionFailed(
                    join3(
                        "a2a_pay: peer_quote in state `",
                        q.status.wire_name(),
                        "` cannot be paid",
                    ),
                ),
            );
        }
        if q.expires_at.at_or_before(&now) {
            return Err(
                ApiError::PreconditionFailed(String::from_str("a2a_pay: peer_quote has expired")),
            );
        }
        match &q.price {
            Some(money) => if money.amount_minor <= 0 {
                Err(
                    ApiError::PreconditionFailed(
                        String::from_str("a2a_pay: peer_quote price must be positive"),
                    ),
                )
            } else {
                Ok((q.peer_agent_id.clone(), money.clone()))
            },
            None => Err(
                ApiError::PreconditionFailed(
                    String::from_str("a2a_pay: peer_quote has no price set"),
                ),
            ),
        }
    }

    fn stale_quote(&self, quote_id: &str, input: &IntentInput, now: Timestamp) -> (r: bool)
        ensures
            r == (owns_peer_quote(self.peer_quotes@, quote_id@, input.tenant.tenant_id@)
                && self.peer_quotes@[quote_id@].requester_agent_id@ == input.agent.raw@
                && self.peer_quotes@[quote_id@].status is Quoted
                && self.peer_quotes@[quote_id@].expires_at@ <= now@),
    {
        match self.peer_quotes.get(quote_id) {
            Some(q) => str_eq(q.tenant_id.as_str(), input.tenant.tenant_id.as_str()) && str_eq(
                q.requester_agent_id.as_str(),
                input.agent.raw.as_str(),
            ) && q.status == PeerQuoteStatus::Quoted && q.expires_at.at_or_before(&now),
            None => false,
        }
    }

    /// Pays a peer: an open quote, or directly. A quote that turns out to be
    /// over is marked so.
    pub fn do_a2a_pay(
        &mut self,
        input: &IntentInput,
        params: A2aPayParams,
        mandate: Option<&MandateEvaluation>,
        now: Timestamp,
        transaction_id: String,
    ) -> (r: Result<Outcome, ApiError>)
        requires
            old(self).wf(),
            mandate_usable(mandate),
        ensures
            a2a_pay_done(*old(self), *final(self), *input, params, mandate, now, transaction_id, r),
    {
        let ghost m = self.peer_quotes@;
        if params.from.as_str().is_empty() {
            return Err(ApiError::InvalidRequest(String::from_str("a2a_pay: `from` is required")));
        }
        if self.config.is_production() {
            return Err(
                ApiError::PreconditionFailed(
                    String::from_str(
                        "a2a_pay requires a production settlement adapter before it can complete",
                    ),
                ),
            );
        }
        let (peer, money) = match &params.peer_quote_id {
            Some(quote_id) => {
                let stale = self.stale_quote(quote_id.as_str(), input, now);
                match self.quoted_payment(quote_id.as_str(), input, now) {
                    Ok(p) => p,
                    Err(e) => {
                        if stale {
                            match self.take_peer_quote(quote_id.as_str()) {
                                Some(mut q) => {
                                    q.status = PeerQuoteStatus::Expired;
                                    q.updated_at = now;
                                    self.put_peer_quote(q);
                                    assert(self.peer_quotes@ =~= m.insert(quote_id@, q));
                                },
                                None => {},
                            }
                        }
                        return Err(e);
                    },
                }
            },
            None => {
                let peer = match &params.peer_agent_id {
                    Some(p) => p.clone(),
                    None => {
                        return Err(
                            ApiError::InvalidRequest(
                                String::from_str(
                                    "a2a_pay: either peer_quote_id or peer_agent_id is required",
                                ),
                            ),
                        );
                    },
                };
                let money = match &params.amount {
                    Some(money) => money.clone(),
                    None => {
                        return Err(
                            ApiError::InvalidRequest(
                                String::from_str("a2a_pay: direct payment requires `amount`"),
                            ),
                        );
                    },
                };
                if money.amount_minor <= 0 {
                    return Err(
                        ApiError::InvalidRequest(
                            String::from_str("a2a_pay.amount.amount_minor must be positive"),
                        ),
                    );
                }
                if str_eq(peer.as_str(), input.agent.raw.as_str()) {
                    return Err(
                        ApiError::InvalidRequest(String::from_str("a2a_pay: cannot pay yourself")),
                    );
                }
                (peer, money)
            },
        };
        match self.reserve_mandate_spend(
            mandate,
            input.tenant.tenant_id.as_str(),
            money.amount_minor,
            money.currency.as_str(),
            now,
        ) {
            Ok(()) => {},
            Err(e) => {
                return Err(e);
            },
        }
        let charge_id = transaction_id.clone();
        let txn = build_payment(
            input,
            &params,
            mandate,
            peer.as_str(),
            money,
            now,
            transaction_id,
        );
        let shown = self.keep_transaction(txn);
        let shown_quote = match &params.peer_quote_id {
            Some(quote_id) => match self.take_peer_quote(quote_id.as_str()) {
                Some(mut q) => {
                    q.status = PeerQuoteStatus::Accepted;
                    q.accepted_at = Some(now);
                    q.charge_transaction_id = Some(charge_id);
                    q.updated_at = now;
                    let shown_quote = self.keep_peer_quote(q);
                    assert(self.peer_quotes@ =~= m.insert(quote_id@, q));
                    Some(shown_quote)
                },
                None => None,
            },
            None => None,
        };
        Ok(
            Outcome {
                transaction: shown,
                order: None,
                subscription: None,
                peer_quote: shown_quote,
            },
        )
    }
}

// ---------------------------------------------------------------------------
// Laws
// ---------------------------------------------------------------------------

/// A quote is paid at most once, and never after it expired.
pub proof fn law_peer_quotes_are_paid_once(
    m: Map<Seq<char>, PeerQuote>,
    id: Seq<char>,
    charge_id: String,
    at: Timestamp,
    tenant: Seq<char>,
    agent: Seq<char>,
    now: int,
)
    requires
        m.contains_key(id),
    ensures
        quote_pay_error(
            m.insert(id, peer_quote_paid(m[id], charge_id, at)),
            id,
            tenant,
            agent,
            now,
        ) is Some,
        quote_pay_error(m.insert(id, peer_quote_expired(m[id], at)), id, tenant, agent, now)
            is Some,
{
}

/// A quote can be paid only by the agent that asked for it, and a quote that
/// was just opened without a price cannot be paid at all.
pub proof fn law_only_the_requester_pays(
    m: Map<Seq<char>, PeerQuote>,
    id: Seq<char>,
    tenant: Seq<char>,
    agent: Seq<char>,
    now: int,
)
    requires
        quote_pay_error(m, id, tenant, agent, now) is None,
    ensures
        m[id].requester_agent_id@ == agent,
        m[id].tenant_id@ == tenant,
        m[id].price matches Some(p) && p.amount_minor > 0,
        m[id].status is Quoted,
        now < m[id].expires_at@,
{
}

/// An agent never pays itself directly, and never opens a quote with itself.
pub proof fn law_no_payment_to_oneself(
    params: A2aPayParams,
    quote: A2aQuoteParams,
    agent: Seq<char>,
)
    requires
        direct_pay_error(params, agent) is None,
        a2a_quote_error(quote, agent) is None,
    ensures
        params.peer_agent_id matches Some(p) && p@ != agent,
        quote.peer_agent_id@ != agent,
{
}

proof fn lemma_reference_names()
    ensures
        "peer_agent_id"@ != "peer_quote_id"@ && "peer_agent_id"@ != "memo"@ && "peer_agent_id"@
            != "a2a_from"@,
        "peer_quote_id"@ != "memo"@ && "peer_quote_id"@ != "a2a_from"@ && "memo"@ != "a2a_from"@,
{
    reveal_strlit("peer_agent_id");
    reveal_strlit("peer_quote_id");
    reveal_strlit("memo");
    reveal_strlit("a2a_from");
    assert("peer_agent_id"@[5] != "peer_quote_id"@[5]);
    assert("peer_agent_id"@.len() == 13 && "peer_quote_id"@.len() == 13 && "memo"@.len() == 4
        && "a2a_from"@.len() == 8);
}

/// A quote between agents says who asks whom for what, at which price, and is open for as
/// long as was asked, from a second to a day: for `n` seconds where `n` were asked, and for
/// five minutes where nothing was. It is payable at once exactly when a price was given.
pub proof fn law_peer_quotes_are_open_as_long_as_asked(
    before: IcpService,
    after: IcpService,
    input: IntentInput,
    params: A2aQuoteParams,
    mandate: Option<&MandateEvaluation>,
    now: Timestamp,
    quote_id: String,
    transaction_id: String,
    o: Outcome,
)
    requires
        a2a_quote_done(
            before,
            after,
            input,
            params,
            mandate,
            now,
            quote_id,
            transaction_id,
            Ok(o),
        ),
    ensures
        ({
            let q = after.peer_quotes@[quote_id@];
            let t = after.transactions@[transaction_id@];
            &&& after.peer_quotes@.contains_key(quote_id@)
            &&& after.transactions@.contains_key(transaction_id@)
            &&& params.expires_in_seconds matches Some(n) ==> (1 <= n <= 86_400
                ==> q.expires_at@ == now@ + n * 1_000_000_000)
            &&& params.expires_in_seconds matches Some(n) ==> (n < 1 ==> q.expires_at@ == now@
                + 1_000_000_000)
            &&& params.expires_in_seconds matches Some(n) ==> (n > 86_400 ==> q.expires_at@ == now@
                + 86_400_000_000_000)
            &&& params.expires_in_seconds is None ==> q.expires_at@ == now@ + 300_000_000_000
            &&& q.requester_agent_id == input.agent.raw && q.peer_agent_id == params.peer_agent_id
            &&& q.tenant_id == input.tenant.tenant_id && q.price == params.price_hint
            &&& q.service.kind == params.service.kind && q.service.description
                == params.service.description && q.service.params@ == params.service.params@
            &&& q.reference_id == params.reference_id
            &&& q.created_at == now && q.updated_at == now
            &&& q.accepted_at is None && q.charge_transaction_id is None
            &&& mandate matches Some(ev) ==> q.mandate_jti == Some(ev.payload.jti)
            &&& mandate is None ==> q.mandate_jti is None
            &&& params.price_hint is Some ==> q.status is Quoted
            &&& params.price_hint is None ==> q.status is Pending
            &&& o.peer_quote matches Some(shown) && shown.id == q.id && shown.status == q.status
                && shown.price == q.price && shown.expires_at == q.expires_at
            &&& t.state is Draft && t.agent_id == input.agent.raw && t.tenant_id
                == input.tenant.tenant_id
            &&& t.quote_expires_at matches Some(at) && at@ == q.expires_at@
            &&& t.external_refs@.contains_key("peer_quote_id"@)
                && t.external_refs@["peer_quote_id"@] == quote_id
            &&& params.price_hint matches Some(p) ==> t.currency@ == p.currency@
            &&& params.price_hint is None ==> (input.envelope.context.currency matches Some(c)
                ==> t.currency@ == c@) && (input.envelope.context.currency is None ==> t.currency@
                == "USD"@)
            &&& mandate matches Some(ev) ==> t.mandate_jti == Some(ev.payload.jti)
            &&& mandate is None ==> t.mandate_jti is None
            &&& t.jurisdiction == input.envelope.context.jurisdiction && t.buyer.email is None
                && t.buyer.first_name is None && t.ship_to is None && t.bill_to is None
            &&& t.line_items@.len() == 0 && t.totals.total is None && t.totals.subtotal is None
                && t.order_id is None && t.created_at == now && t.updated_at == now
            &&& o.transaction.id == transaction_id && o.transaction.same_as(t)
            &&& o.order is None && o.subscription is None
            &&& after.mandates == before.mandates
            &&& forall|k: Seq<char>|
                k != quote_id@ ==> (after.peer_quotes@.contains_key(k)
                    <==> before.peer_quotes@.contains_key(k)) && #[trigger] after.peer_quotes@[k]
                    == before.peer_quotes@[k]
            &&& forall|k: Seq<char>|
                k != transaction_id@ ==> (after.transactions@.contains_key(k)
                    <==> before.transactions@.contains_key(k)) && #[trigger] after.transactions@[k]
                    == before.transactions@[k]
        }),
{
}

/// A quote between agents is opened exactly when it is with another agent, at a positive
/// price or none.
pub proof fn law_peer_quotes_are_with_others(
    before: IcpService,
    after: IcpService,
    input: IntentInput,
    params: A2aQuoteParams,
    mandate: Option<&MandateEvaluation>,
    now: Timestamp,
    quote_id: String,
    transaction_id: String,
    r: Result<Outcome, ApiError>,
)
    requires
        a2a_quote_done(before, after, input, params, mandate, now, quote_id, transaction_id, r),
    ensures
        r is Ok <==> params.peer_agent_id@ != input.agent.raw@ && (params.price_hint matches Some(
            p,
        ) ==> p.amount_minor > 0),
        r matches Err(e) ==> after == before && e@ is InvalidRequest,
{
}

/// A quote that was opened with a price for `n` seconds, from a second to a day, can be
/// paid by its requester at each instant before they are over, and no longer: the payment
/// completes with that price to that peer, and later the quote is marked as expired.
pub proof fn law_open_peer_quotes_can_be_paid(
    start: IcpService,
    opened: IcpService,
    end: IcpService,
    asked: IntentInput,
    quote: A2aQuoteParams,
    behind: Option<&MandateEvaluation>,
    at: Timestamp,
    quote_id: String,
    draft_id: String,
    given: Outcome,
    paying: IntentInput,
    params: A2aPayParams,
    now: Timestamp,
    charge_id: String,
    r: Result<Outcome, ApiError>,
)
    requires
        a2a_quote_done(start, opened, asked, quote, behind, at, quote_id, draft_id, Ok(given)),
        a2a_pay_done(opened, end, paying, params, None, now, charge_id, r),
        quote.expires_in_seconds matches Some(n) && 1 <= n <= 86_400,
        quote.price_hint is Some,
        paying.agent.raw@ == asked.agent.raw@,
        paying.tenant.tenant_id@ == asked.tenant.tenant_id@,
        params.peer_quote_id matches Some(id) && id@ == quote_id@,
        params.from@.len() > 0,
        !start.config.production,
    ensures
        r is Ok <==> now@ < at@ + quote.expires_in_seconds->0 * 1_000_000_000,
        r matches Ok(o) ==> {
            let price = quote.price_hint->0;
            &&& o.transaction.state is Completed
            &&& o.transaction.totals.total == Some(price)
            &&& o.transaction.currency == price.currency
            &&& o.transaction.external_refs@["peer_agent_id"@]@ == quote.peer_agent_id@
            &&& end.peer_quotes@[quote_id@].status is Accepted
            &&& end.peer_quotes@[quote_id@].charge_transaction_id == Some(charge_id)
            &&& end.peer_quotes@[quote_id@].accepted_at == Some(now)
            &&& o.peer_quote matches Some(q) && q.status is Accepted
        },
        r matches Err(e) ==> {
            &&& e@ is PreconditionFailed
            &&& end.peer_quotes@[quote_id@].status is Expired
            &&& end.transactions@ == opened.transactions@
        },
{
    if r is Ok {
        let o = r->Ok_0;
        let refs = o.transaction.external_refs@;
        let peer = payee(opened.peer_quotes@, params)@;
        lemma_reference_names();
        let texts = refs.map_values(|s: String| s@);
        assert(texts == payment_refs(params, peer));
        assert(texts.contains_key("peer_agent_id"@) && texts["peer_agent_id"@] == peer);
        assert(refs.contains_key("peer_agent_id"@));
    }
}

/// A payment is one position of the amount without tax: that of the quote, or the one that
/// is given with a direct payment, to the peer of the quote or the one that is named, and
/// it tells from where, for which quote and with which memo.
pub proof fn law_payments_are_for_their_amount(
    before: IcpService,
    after: IcpService,
    input: IntentInput,
    params: A2aPayParams,
    mandate: Option<&MandateEvaluation>,
    now: Timestamp,
    transaction_id: String,
    o: Outcome,
)
    requires
        a2a_pay_done(before, after, input, params, mandate, now, transaction_id, Ok(o)),
    ensures
        ({
            let money = match params.peer_quote_id {
                Some(id) => before.peer_quotes@[id@].price->0,
                None => params.amount->0,
            };
            let peer = match params.peer_quote_id {
                Some(id) => before.peer_quotes@[id@].peer_agent_id@,
                None => params.peer_agent_id->0@,
            };
            let t = after.transactions@[transaction_id@];
            let refs = t.external_refs@;
            &&& after.transactions@.contains_key(transaction_id@)
            &&& o.transaction.same_as(t)
            &&& t.state is Completed && t.agent_id == input.agent.raw && t.tenant_id
                == input.tenant.tenant_id
            &&& t.totals.total == Some(money) && t.totals.subtotal == Some(money)
            &&& t.totals.tax is None && t.totals.discount is None && t.totals.shipping is None
            &&& t.currency == money.currency
            &&& t.line_items@.len() == 1 && t.line_items@[0].quantity == 1
                && t.line_items@[0].unit_price == money && t.line_items@[0].total == money
                && t.line_items@[0].sku@ == "a2a:"@ + peer
            &&& t.line_items@[0].id@ == "li_a2a"@ && t.line_items@[0].name@ == "Peer payment to "@
                + peer && t.line_items@[0].subtotal == money && t.line_items@[0].tax is None
            &&& t.created_at == now && t.updated_at == now
            &&& mandate matches Some(ev) ==> t.mandate_jti == Some(ev.payload.jti)
            &&& mandate is None ==> t.mandate_jti is None
            &&& t.jurisdiction == input.envelope.context.jurisdiction && t.buyer.email is None
                && t.buyer.first_name is None && t.ship_to is None && t.bill_to is None
            &&& t.order_id is None && t.quote_expires_at is None
            &&& o.order is None && o.subscription is None
            &&& forall|k: Seq<char>|
                k != transaction_id@ ==> (after.transactions@.contains_key(k)
                    <==> before.transactions@.contains_key(k)) && #[trigger] after.transactions@[k]
                    == before.transactions@[k]
            &&& refs.contains_key("peer_agent_id"@) && refs["peer_agent_id"@]@ == peer
            &&& refs.contains_key("a2a_from"@) && refs["a2a_from"@]@ == params.from@
            &&& params.memo matches Some(m) ==> refs.contains_key("memo"@) && refs["memo"@]@ == m@
            &&& params.peer_quote_id matches Some(id) ==> refs.contains_key("peer_quote_id"@)
                && refs["peer_quote_id"@]@ == id@
            &&& money.amount_minor > 0 && (params.peer_quote_id is None ==> peer != input.agent.raw@)
            &&& after.mandates@ == reservation(
                before.mandates@,
                mandate,
                input.tenant.tenant_id@,
                money.amount_minor as int,
                money.currency@,
                now@,
            ).0
            &&& params.peer_quote_id is None ==> after.peer_quotes@ == before.peer_quotes@
                && o.peer_quote is None
            &&& params.peer_quote_id matches Some(id) ==> forall|k: Seq<char>|
                k != id@ ==> #[trigger] after.peer_quotes@[k] == before.peer_quotes@[k]
        }),
{
    let t = after.transactions@[transaction_id@];
    let shown = o.transaction.external_refs@;
    let peer = payee(before.peer_quotes@, params)@;
    lemma_reference_names();
    let texts = shown.map_values(|s: String| s@);
    assert(texts == payment_refs(params, peer));
    assert(texts.contains_key("peer_agent_id"@) && texts["peer_agent_id"@] == peer);
    assert(texts.contains_key("a2a_from"@) && texts["a2a_from"@] == params.from@);
    assert(shown.contains_key("peer_agent_id"@) && shown.contains_key("a2a_from"@));
    if params.memo is Some {
        assert(texts.contains_key("memo"@) && texts["memo"@] == params.memo->0@);
        assert(shown.contains_key("memo"@));
    }
    if params.peer_quote_id is Some {
        assert(texts.contains_key("peer_quote_id"@) && texts["peer_quote_id"@]
            == params.peer_quote_id->0@);
        assert(shown.contains_key("peer_quote_id"@));
    }
    assert(t.external_refs@ == shown);
}

/// A direct payment is made exactly when it says from where, names another agent and a
/// positive amount, the mandate has room for it, and the deployment is not in production.
pub proof fn law_direct_payments_are_complete(
    before: IcpService,
    after: IcpService,
    input: IntentInput,
    params: A2aPayParams,
    mandate: Option<&MandateEvaluation>,
    now: Timestamp,
    transaction_id: String,
    r: Result<Outcome, ApiError>,
)
    requires
        a2a_pay_done(before, after, input, params, mandate, now, transaction_id, r),
        params.peer_quote_id is None,
    ensures
        ({
            let sound = params.from@.len() > 0 && params.peer_agent_id is Some && params.amount
                is Some && params.amount->0.amount_minor > 0 && params.peer_agent_id->0@
                != input.agent.raw@;
            let room = reservation(
                before.mandates@,
                mandate,
                input.tenant.tenant_id@,
                params.amount->0.amount_minor as int,
                params.amount->0.currency@,
                now@,
            ).1 is None;
            &&& r is Ok <==> sound && !before.config.production && room
            &&& r is Err ==> after.transactions@ == before.transactions@ && after.peer_quotes@
                == before.peer_quotes@
            &&& r matches Err(e) ==> (!before.config.production && !sound ==> e@ is InvalidRequest)
                && (params.from@.len() > 0 && before.config.production ==> e@ is PreconditionFailed)
        }),
{
}

/// A quote between agents is paid exactly when its own tenant and its requester pay it while
/// it is open, at a positive price, from somewhere, the mandate has room for it, and the
/// deployment is not in production.
pub proof fn law_quoted_payments_are_complete(
    before: IcpService,
    after: IcpService,
    input: IntentInput,
    params: A2aPayParams,
    mandate: Option<&MandateEvaluation>,
    now: Timestamp,
    transaction_id: String,
    r: Result<Outcome, ApiError>,
)
    requires
        a2a_pay_done(before, after, input, params, mandate, now, transaction_id, r),
        params.peer_quote_id is Some,
    ensures
        ({
            let id = params.peer_quote_id->0@;
            let q = before.peer_quotes@[id];
            let own = before.peer_quotes@.contains_key(id) && q.tenant_id@
                == input.tenant.tenant_id@;
            let mine = own && q.requester_agent_id@ == input.agent.raw@;
            let open = q.status is Quoted && now@ < q.expires_at@;
            let priced = q.price matches Some(m) && m.amount_minor > 0;
            let ready = params.from@.len() > 0 && !before.config.production;
            let room = reservation(
                before.mandates@,
                mandate,
                input.tenant.tenant_id@,
                q.price->0.amount_minor as int,
                q.price->0.currency@,
                now@,
            ).1 is None;
            &&& r is Ok <==> ready && mine && open && priced && room
            &&& r matches Ok(o) ==> {
                let paid = after.peer_quotes@[id];
                &&& paid == (PeerQuote {
                    status: PeerQuoteStatus::Accepted,
                    accepted_at: Some(now),
                    charge_transaction_id: Some(transaction_id),
                    updated_at: now,
                    ..q
                })
                &&& o.peer_quote matches Some(shown) && shown.same_as(paid)
            }
            &&& r is Err ==> after.transactions@ == before.transactions@
            &&& r matches Err(e) ==> (ready && !own ==> e@ is ResourceNotFound) && (ready && own && !(
            mine && open && priced) ==> e@ is PreconditionFailed)
            &&& r is Err && !(ready && mine && q.status is Quoted && q.expires_at@ <= now@)
                ==> after.peer_quotes@ == before.peer_quotes@
            &&& r is Err && ready && mine && q.status is Quoted && q.expires_at@ <= now@
                ==> after.peer_quotes@[id] == (PeerQuote {
                status: PeerQuoteStatus::Expired,
                updated_at: now,
                ..q
            })
        }),
{
}

} // verus!
