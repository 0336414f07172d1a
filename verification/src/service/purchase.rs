//! The intents that buy against a quoted transaction: `authorize`, `buy` and
//! its alias `pay`.
//!
//! The spend is reserved on the mandate before the engine is asked to persist
//! the order, so a refused budget never leaves an order behind.

use vstd::prelude::*;

use crate::errors::{ApiError, ErrorView};
use crate::mandate::{MandateEvaluation, UsageView};
use crate::models::{AuthorizeParams, BuyParams, Transaction, TransactionState};
use crate::pricing::{
    payment_error, total_amount_minor, total_of, validate_payment_instrument,
};
use crate::service::helpers::{
    after_quote_check, changed, engine_error, mandate_usable, missing, order_from_reply, order_id,
    order_id_of, outcome_of, owns_transaction, quote_expired_error, quote_over, reservation,
    summarizes, transaction_for_tenant, transaction_only, EngineReply,
};
use crate::service::{IcpService, IntentInput, Outcome};
use crate::text::join3;
use crate::time::Timestamp;

verus! {

/// Whether the transaction belongs to a subscription.
pub open spec fn linked(t: Transaction) -> bool {
    t.external_refs@.contains_key("subscription_id"@)
}

/// The error for a transaction that only its subscription may charge.
pub open spec fn linked_error() -> ErrorView {
    ErrorView::PreconditionFailed(
        "transaction belongs to a subscription and cannot be authorized or bought directly"@,
    )
}

/// The error for a transaction in the wrong state.
pub open spec fn state_error(state: TransactionState, what: Seq<char>) -> ErrorView {
    ErrorView::PreconditionFailed("transaction in state "@ + state.label() + what)
}

/// Refuses a transaction that belongs to a subscription: charging it directly
/// would bypass the billing of the subscription.
pub fn ensure_not_subscription_linked(txn: &Transaction) -> (r: Result<(), ApiError>)
    ensures
        match r {
            Ok(()) => !linked(*txn),
            Err(e) => linked(*txn) && e@ == linked_error(),
        },
{
    if txn.external_refs.contains_key("subscription_id") {
        return Err(
            ApiError::PreconditionFailed(
                String::from_str(
                    "transaction belongs to a subscription and cannot be authorized or bought directly",
                ),
            ),
        );
    }
    Ok(())
}

// ---------------------------------------------------------------------------
// authorize
// ---------------------------------------------------------------------------

/// Why a transaction cannot be authorized.
pub open spec fn authorize_error(
    m: Map<Seq<char>, Transaction>,
    id: Seq<char>,
    tenant: Seq<char>,
    now: int,
) -> Option<ErrorView> {
    if !owns_transaction(m, id, tenant) {
        Some(missing("transaction"@, id))
    } else if linked(m[id]) {
        Some(linked_error())
    } else if !(m[id].state is Quoted) {
        Some(state_error(m[id].state, " cannot be authorized"@))
    } else if quote_over(m[id], now) {
        Some(quote_expired_error(id))
    } else {
        None
    }
}

/// The transaction once it is authorized: with the parties that the caller gave,
/// and the earlier ones where none were given.
pub open spec fn authorized(t: Transaction, params: AuthorizeParams, now: Timestamp) -> Transaction {
    Transaction {
        buyer: match params.buyer {
            Some(b) => b,
            None => t.buyer,
        },
        ship_to: match params.ship_to {
            Some(a) => Some(a),
            None => t.ship_to,
        },
        bill_to: match params.bill_to {
            Some(a) => Some(a),
            None => t.bill_to,
        },
        state: TransactionState::Authorized,
        updated_at: now,
        ..t
    }
}

/// The transactions after a refused authorization or purchase: a quote that
/// turned out to be over is marked so.
pub open spec fn after_refusal(
    m: Map<Seq<char>, Transaction>,
    id: Seq<char>,
    tenant: Seq<char>,
    now: Timestamp,
) -> Map<Seq<char>, Transaction> {
    if owns_transaction(m, id, tenant) && !linked(m[id]) && m[id].state is Quoted {
        after_quote_check(m, id, now)
    } else {
        m
    }
}

/// What authorizing a transaction does.
pub open spec fn authorize_done(
    before: IcpService,
    after: IcpService,
    input: IntentInput,
    params: AuthorizeParams,
    now: Timestamp,
    r: Result<Outcome, ApiError>,
) -> bool {
    &&& after.wf()
    &&& after == (IcpService { transactions: after.transactions, ..before })
    &&& {
        let m = before.transactions@;
        let id = params.transaction_id@;
        let tenant = input.tenant.tenant_id@;
        match r {
            Ok(o) => {
                &&& authorize_error(m, id, tenant, now@) is None
                &&& changed(
                    m,
                    after.transactions@,
                    id,
                    authorized(m[id], params, now),
                    o.transaction,
                )
                &&& transaction_only(o)
            },
            Err(e) => {
                &&& authorize_error(m, id, tenant, now@) == Some(e@)
                &&& after.transactions@ == after_refusal(m, id, tenant, now)
            },
        }
    }
}

impl IcpService {
    /// Authorizes a quoted transaction whose quote is still open.
    pub fn do_authorize(&mut self, input: &IntentInput, params: AuthorizeParams, now: Timestamp) -> (r:
        Result<Outcome, ApiError>)
        requires
            old(self).wf(),
        ensures
            authorize_done(*old(self), *final(self), *input, params, now, r),
    {
        let ghost m = self.transactions@;
        let id = params.transaction_id.as_str();
        match transaction_for_tenant(&self.transactions, id, input.tenant.tenant_id.as_str()) {
            Ok(txn) => {
                match ensure_not_subscription_linked(txn) {
                    Ok(()) => {},
                    Err(e) => {
                        return Err(e);
                    },
                }
                if txn.state != TransactionState::Quoted {
                    return Err(
                        ApiError::PreconditionFailed(
                            join3(
                                "transaction in state ",
                                txn.state.debug_name(),
                                " cannot be authorized",
                            ),
                        ),
                    );
                }
            },
            Err(e) => {
                return Err(e);
            },
        }
        match self.ensure_quote_open(id, now) {
            Ok(()) => {},
            Err(e) => {
                return Err(e);
            },
        }
        match self.take_transaction(id) {
            Some(mut t) => {
                match params.buyer {
                    Some(b) => {
                        t.buyer = b;
                    },
                    None => {},
                }
                match params.ship_to {
                    Some(a) => {
                        t.ship_to = Some(a);
                    },
                    None => {},
                }
                match params.bill_to {
                    Some(a) => {
                        t.bill_to = Some(a);
                    },
                    None => {},
                }
                t.state = TransactionState::Authorized;
                t.updated_at = now;
                let shown = self.keep_transaction(t);
                assert(self.transactions@ =~= m.insert(id@, t));
                Ok(outcome_of(shown))
            },
            None => Err(ApiError::ResourceNotFound(join3("transaction", " ", id))),
        }
    }
}

// ---------------------------------------------------------------------------
// buy
// ---------------------------------------------------------------------------

/// Why a transaction cannot be bought, before the budget is asked.
pub open spec fn buy_error(
    m: Map<Seq<char>, Transaction>,
    params: BuyParams,
    mode: Seq<char>,
    tenant: Seq<char>,
    now: int,
) -> Option<ErrorView> {
    let id = params.transaction_id@;
    if payment_error(params.payment, mode) is Some {
        payment_error(params.payment, mode)
    } else if !owns_transaction(m, id, tenant) {
        Some(missing("transaction"@, id))
    } else if linked(m[id]) {
        Some(linked_error())
    } else if m[id].state is Quoted {
        if quote_over(m[id], now) {
            Some(quote_expired_error(id))
        } else {
            None
        }
    } else if m[id].state is Authorized {
        None
    } else {
        Some(state_error(m[id].state, " cannot be bought"@))
    }
}

/// The reservation that a purchase makes.
pub open spec fn buy_reservation(
    ledger: Map<Seq<char>, UsageView>,
    mandate: Option<&MandateEvaluation>,
    tenant: Seq<char>,
    t: Transaction,
    now: int,
) -> (Map<Seq<char>, UsageView>, Option<ErrorView>) {
    reservation(ledger, mandate, tenant, total_of(t.totals), t.currency@, now)
}

/// The transaction once it is bought.
pub open spec fn bought(t: Transaction, order_id: Option<String>, now: Timestamp) -> Transaction {
    Transaction { state: TransactionState::Completed, order_id, updated_at: now, ..t }
}

/// What the first half of a purchase does.
pub open spec fn buy_begun(
    before: IcpService,
    after: IcpService,
    input: IntentInput,
    params: BuyParams,
    mandate: Option<&MandateEvaluation>,
    now: Timestamp,
    r: Result<Transaction, ApiError>,
) -> bool {
    &&& after.wf()
    &&& after == (IcpService {
        transactions: after.transactions,
        mandates: after.mandates,
        ..before
    })
    &&& {
        let m = before.transactions@;
        let id = params.transaction_id@;
        let tenant = input.tenant.tenant_id@;
        let mode = before.config.payment_execution_mode@;
        let error = buy_error(m, params, mode, tenant, now@);
        let reserved = buy_reservation(before.mandates@, mandate, tenant, m[id], now@);
        match r {
            Ok(t) => {
                &&& error is None
                &&& reserved.1 is None
                &&& t.same_as(m[id])
                &&& after.transactions@ == m
                &&& after.mandates@ == reserved.0
            },
            Err(e) => if error is Some {
                &&& error == Some(e@)
                &&& after.mandates@ == before.mandates@
                &&& after.transactions@ == (if payment_error(params.payment, mode)
                    is Some {
                    m
                } else {
                    after_refusal(m, id, tenant, now)
                })
            } else {
                &&& reserved.1 == Some(e@)
                &&& after.mandates@ == reserved.0
                &&& after.transactions@ == m
            },
        }
    }
}

/// What the second half of a purchase does.
pub open spec fn buy_finished(
    before: IcpService,
    after: IcpService,
    transaction_id: Seq<char>,
    reply: EngineReply,
    now: Timestamp,
    r: Result<Outcome, ApiError>,
) -> bool {
    &&& after.wf()
    &&& after == (IcpService { transactions: after.transactions, ..before })
    &&& {
        let m = before.transactions@;
        let error = engine_error(reply, before.config.production);
        match r {
            Ok(o) => {
                &&& error is None
                &&& m.contains_key(transaction_id)
                &&& summarizes(o.order, reply)
                &&& o.subscription is None && o.peer_quote is None
                &&& changed(
                    m,
                    after.transactions@,
                    transaction_id,
                    bought(m[transaction_id], order_id_of(o.order), now),
                    o.transaction,
                )
            },
            Err(e) => {
                &&& after.transactions@ == m
                &&& if error is Some {
                    error == Some(e@)
                } else {
                    !m.contains_key(transaction_id) && e@ == missing(
                        "transaction"@,
                        transaction_id,
                    )
                }
            },
        }
    }
}

impl IcpService {
    /// First half of a purchase: checks the instrument and the transaction and
    /// reserves its total on the mandate. The transaction that comes back is
    /// the one to persist with the engine.
    pub fn begin_buy(
        &mut self,
        input: &IntentInput,
        params: &BuyParams,
        mandate: Option<&MandateEvaluation>,
        now: Timestamp,
    ) -> (r: Result<Transaction, ApiError>)
        requires
            old(self).wf(),
            mandate_usable(mandate),
        ensures
            buy_begun(*old(self), *final(self), *input, *params, mandate, now, r),
    {
        match validate_payment_instrument(
            &params.payment,
            self.config.payment_execution_mode.as_str(),
        ) {
            Ok(()) => {},
            Err(e) => {
                return Err(e);
            },
        }
        let id = params.transaction_id.as_str();
        let tenant = input.tenant.tenant_id.as_str();
        let quoted = match transaction_for_tenant(&self.transactions, id, tenant) {
            Ok(txn) => {
                match ensure_not_subscription_linked(txn) {
                    Ok(()) => {},
                    Err(e) => {
                        return Err(e);
                    },
                }
                match txn.state {
                    TransactionState::Quoted => true,
                    TransactionState::Authorized => false,
                    other => {
                        return Err(
                            ApiError::PreconditionFailed(
                                join3(
                                    "transaction in state ",
                                    other.debug_name(),
                                    " cannot be bought",
                                ),
                            ),
                        );
                    },
                }
            },
            Err(e) => {
                return Err(e);
            },
        };
        if quoted {
            match self.ensure_quote_open(id, now) {
                Ok(()) => {},
                Err(e) => {
                    return Err(e);
                },
            }
        }
        let txn = match transaction_for_tenant(&self.transactions, id, tenant) {
            Ok(txn) => txn.clone(),
            Err(e) => {
                return Err(e);
            },
        };
        let spend: i64 = total_amount_minor(&txn.totals);
        match self.reserve_mandate_spend(mandate, tenant, spend, txn.currency.as_str(), now) {
            Ok(()) => Ok(txn),
            Err(e) => Err(e),
        }
    }

    /// Second half of a purchase, with the reply of the engine.
    pub fn finish_buy(&mut self, transaction_id: &str, reply: EngineReply, now: Timestamp) -> (r:
        Result<Outcome, ApiError>)
        requires
            old(self).wf(),
        ensures
            buy_finished(*old(self), *final(self), transaction_id@, reply, now, r),
    {
        let ghost m = self.transactions@;
        let order = match order_from_reply(reply, self.config.is_production()) {
            Ok(order) => order,
            Err(e) => {
                return Err(e);
            },
        };
        match self.take_transaction(transaction_id) {
            Some(mut t) => {
                t.state = TransactionState::Completed;
                t.order_id = order_id(&order);
                t.updated_at = now;
                let shown = self.keep_transaction(t);
                assert(self.transactions@ =~= m.insert(transaction_id@, t));
                Ok(Outcome { transaction: shown, order, subscription: None, peer_quote: None })
            },
            None => {
                assert(self.transactions@ =~= m);
                Err(ApiError::ResourceNotFound(join3("transaction", " ", transaction_id)))
            },
        }
    }
}

// ---------------------------------------------------------------------------
// Laws
// ---------------------------------------------------------------------------

/// A transaction that belongs to a subscription can be neither authorized nor
/// bought.
pub proof fn law_linked_transactions_are_not_chargeable(
    m: Map<Seq<char>, Transaction>,
    params: BuyParams,
    mode: Seq<char>,
    tenant: Seq<char>,
    now: int,
)
    requires
        m.contains_key(params.transaction_id@),
        linked(m[params.transaction_id@]),
    ensures
        authorize_error(m, params.transaction_id@, tenant, now) is Some,
        buy_error(m, params, mode, tenant, now) is Some,
{
}

/// To a tenant that does not own a transaction it looks missing, whatever its
/// state.
pub proof fn law_other_tenants_see_nothing(
    m: Map<Seq<char>, Transaction>,
    params: BuyParams,
    mode: Seq<char>,
    tenant: Seq<char>,
    now: int,
)
    requires
        !owns_transaction(m, params.transaction_id@, tenant),
        payment_error(params.payment, mode) is None,
    ensures
        authorize_error(m, params.transaction_id@, tenant, now) == Some(
            missing("transaction"@, params.transaction_id@),
        ),
        buy_error(m, params, mode, tenant, now) == Some(
            missing("transaction"@, params.transaction_id@),
        ),
{
}

/// A quote that is over can be neither authorized nor bought, and once it is
/// authorized its deadline no longer matters.
pub proof fn law_stale_quotes_are_not_chargeable(
    m: Map<Seq<char>, Transaction>,
    params: BuyParams,
    mode: Seq<char>,
    tenant: Seq<char>,
    now: int,
)
    requires
        owns_transaction(m, params.transaction_id@, tenant),
        quote_over(m[params.transaction_id@], now),
    ensures
        authorize_error(m, params.transaction_id@, tenant, now) is Some,
        buy_error(m, params, mode, tenant, now) is None ==> m[params.transaction_id@].state
            is Authorized,
{
}

/// What was bought cannot be authorized or bought again.
pub proof fn law_nothing_is_bought_twice(
    m: Map<Seq<char>, Transaction>,
    params: BuyParams,
    order_id: Option<String>,
    mode: Seq<char>,
    tenant: Seq<char>,
    at: Timestamp,
    now: int,
)
    requires
        m.contains_key(params.transaction_id@),
    ensures
        ({
            let id = params.transaction_id@;
            let after = m.insert(id, bought(m[id], order_id, at));
            &&& authorize_error(after, id, tenant, now) is Some
            &&& buy_error(after, params, mode, tenant, now) is Some
        }),
{
}

/// An authorization takes over the parties that the caller gives: the transaction that is
/// kept and the one in the answer hold exactly them, and a party that is not given stays
/// as it was. The basket, its sums and the deadline stay, and no other transaction changes.
pub proof fn law_authorization_takes_the_given_parties(
    before: IcpService,
    after: IcpService,
    input: IntentInput,
    params: AuthorizeParams,
    now: Timestamp,
    o: Outcome,
)
    requires
        authorize_done(before, after, input, params, now, Ok(o)),
    ensures
        ({
            let id = params.transaction_id@;
            let was = before.transactions@[id];
            let kept = after.transactions@[id];
            let shown = o.transaction;
            &&& before.transactions@.contains_key(id) && after.transactions@.contains_key(id)
            &&& kept.state is Authorized && shown.state is Authorized
            &&& params.buyer matches Some(b) ==> kept.buyer == b && shown.buyer == b
            &&& params.buyer is None ==> kept.buyer == was.buyer && shown.buyer == was.buyer
            &&& params.ship_to is Some ==> kept.ship_to == params.ship_to && shown.ship_to
                == params.ship_to
            &&& params.ship_to is None ==> kept.ship_to == was.ship_to && shown.ship_to
                == was.ship_to
            &&& params.bill_to is Some ==> kept.bill_to == params.bill_to && shown.bill_to
                == params.bill_to
            &&& params.bill_to is None ==> kept.bill_to == was.bill_to && shown.bill_to
                == was.bill_to
            &&& kept.line_items@ == was.line_items@ && shown.line_items@ == was.line_items@
            &&& kept.totals == was.totals && shown.totals == was.totals
            &&& kept.currency == was.currency && kept.quote_expires_at == was.quote_expires_at
            &&& kept.agent_id == was.agent_id && kept.tenant_id == was.tenant_id
            &&& kept.mandate_jti == was.mandate_jti && kept.order_id == was.order_id
            &&& kept.external_refs@ == was.external_refs@
            &&& kept.created_at == was.created_at && kept.updated_at == now
            &&& shown.id@ == id
            &&& o.order is None && o.subscription is None && o.peer_quote is None
            &&& forall|k: Seq<char>|
                k != id ==> (after.transactions@.contains_key(k)
                    <==> before.transactions@.contains_key(k)) && #[trigger] after.transactions@[k]
                    == before.transactions@[k]
        }),
{
    assert(after.transactions@.contains_key(params.transaction_id@));
}

/// A transaction is authorized exactly when its own tenant asks, it is quoted, it belongs
/// to no subscription, and its quote is still open. One of another tenant is not found;
/// any other refusal is a failed precondition.
pub proof fn law_open_quotes_are_authorized(
    before: IcpService,
    after: IcpService,
    input: IntentInput,
    params: AuthorizeParams,
    now: Timestamp,
    r: Result<Outcome, ApiError>,
)
    requires
        authorize_done(before, after, input, params, now, r),
    ensures
        ({
            let id = params.transaction_id@;
            let t = before.transactions@[id];
            let own = before.transactions@.contains_key(id) && t.tenant_id@
                == input.tenant.tenant_id@;
            &&& r is Ok <==> own && t.state is Quoted && !t.external_refs@.contains_key(
                "subscription_id"@,
            ) && (t.quote_expires_at matches Some(at) ==> now@ < at@)
            &&& r matches Err(e) ==> (own ==> e@ is PreconditionFailed) && (!own ==> e@
                is ResourceNotFound)
        }),
{
}

/// A refused authorization changes nothing, except that a quote that is over is marked as
/// expired.
pub proof fn law_refused_authorization_only_marks_stale_quotes(
    before: IcpService,
    after: IcpService,
    input: IntentInput,
    params: AuthorizeParams,
    now: Timestamp,
    e: ApiError,
)
    requires
        authorize_done(before, after, input, params, now, Err(e)),
    ensures
        after.mandates == before.mandates && after.subscriptions == before.subscriptions
            && after.peer_quotes == before.peer_quotes && after.receipts == before.receipts,
        forall|k: Seq<char>|
            after.transactions@.contains_key(k) <==> before.transactions@.contains_key(k),
        forall|k: Seq<char>|
            before.transactions@.contains_key(k) && #[trigger] after.transactions@[k]
                != before.transactions@[k] ==> {
                let was = before.transactions@[k];
                &&& k == params.transaction_id@
                &&& was.state is Quoted
                &&& was.quote_expires_at matches Some(at) && at@ <= now@
                &&& after.transactions@[k] == (Transaction {
                    state: TransactionState::Expired,
                    updated_at: now,
                    ..was
                })
            },
{
}

/// A purchase begins exactly when its instrument is accepted, its own tenant asks, the
/// transaction belongs to no subscription, it is authorized or quoted and still open, and
/// the mandate has room for its total.
pub proof fn law_purchases_begin_with_a_chargeable_transaction(
    before: IcpService,
    after: IcpService,
    input: IntentInput,
    params: BuyParams,
    mandate: Option<&MandateEvaluation>,
    now: Timestamp,
    r: Result<Transaction, ApiError>,
)
    requires
        buy_begun(before, after, input, params, mandate, now, r),
    ensures
        ({
            let id = params.transaction_id@;
            let t = before.transactions@[id];
            let own = before.transactions@.contains_key(id) && t.tenant_id@
                == input.tenant.tenant_id@;
            let amount = match t.totals.total {
                Some(m) => m.amount_minor as int,
                None => 0,
            };
            let refused = reservation(
                before.mandates@,
                mandate,
                input.tenant.tenant_id@,
                amount,
                t.currency@,
                now@,
            ).1;
            &&& r is Ok <==> payment_error(
                params.payment,
                before.config.payment_execution_mode@,
            ) is None && own && !t.external_refs@.contains_key("subscription_id"@) && (t.state
                is Authorized || (t.state is Quoted && (t.quote_expires_at matches Some(at) ==> now@
                < at@))) && refused is None
            &&& r matches Ok(charge) ==> charge.id@ == t.id@ && charge.totals == t.totals
                && charge.line_items@ == t.line_items@ && charge.buyer == t.buyer
                && charge.currency == t.currency && charge.ship_to == t.ship_to
        }),
{
}

/// A purchase charges its mandate once, with the total of the transaction, when it begins,
/// and completes the transaction, with the order that the engine keeps, when it ends; the
/// basket, its sums and its parties stay as they were agreed.
pub proof fn law_purchases_complete_what_was_agreed(
    start: IcpService,
    begun: IcpService,
    end: IcpService,
    input: IntentInput,
    params: BuyParams,
    mandate: Option<&MandateEvaluation>,
    reply: EngineReply,
    at: Timestamp,
    now: Timestamp,
    charge: Transaction,
    o: Outcome,
)
    requires
        start.wf(),
        buy_begun(start, begun, input, params, mandate, at, Ok(charge)),
        buy_finished(begun, end, charge.id@, reply, now, Ok(o)),
    ensures
        ({
            let id = params.transaction_id@;
            let was = start.transactions@[id];
            let kept = end.transactions@[id];
            let total = match was.totals.total {
                Some(m) => m.amount_minor as int,
                None => 0,
            };
            &&& charge.id@ == id && end.transactions@.contains_key(id)
            &&& kept.state is Completed && o.transaction.state is Completed
            &&& kept.totals == was.totals && o.transaction.totals == was.totals
            &&& kept.line_items@ == was.line_items@ && o.transaction.line_items@ == was.line_items@
            &&& kept.buyer == was.buyer && o.transaction.buyer == was.buyer
            &&& kept.ship_to == was.ship_to && kept.bill_to == was.bill_to
            &&& kept.currency == was.currency && kept.tenant_id == was.tenant_id
            &&& kept.agent_id == was.agent_id && kept.mandate_jti == was.mandate_jti
            &&& kept.external_refs@ == was.external_refs@
            &&& kept.created_at == was.created_at && kept.updated_at == now
            &&& o.transaction.id@ == id && o.transaction.order_id == kept.order_id
            &&& reply matches EngineReply::Persisted(p) ==> {
                &&& o.order matches Some(s)
                &&& s.id == p.id && s.order_number == p.order_number && s.total == p.total
                &&& s.status@ == "created"@
                &&& kept.order_id == Some(p.id)
            }
            &&& !(reply is Persisted) ==> o.order is None && kept.order_id is None
                && !start.config.production
            &&& end.mandates@ == reservation(
                start.mandates@,
                mandate,
                input.tenant.tenant_id@,
                total,
                was.currency@,
                at@,
            ).0
            &&& end.receipts == start.receipts && end.subscriptions == start.subscriptions
                && end.peer_quotes == start.peer_quotes
            &&& forall|k: Seq<char>|
                k != id ==> (end.transactions@.contains_key(k) <==> start.transactions@.contains_key(
                    k,
                )) && #[trigger] end.transactions@[k] == start.transactions@[k]
        }),
{
    let id = params.transaction_id@;
    assert(start.transactions@.contains_key(id));
    assert(start.transactions@[id].id@ == id);
    assert(end.transactions@.contains_key(id));
}

/// In production a purchase ends only with an order that the engine kept; elsewhere it
/// ends whatever the engine says.
pub proof fn law_production_purchases_need_an_order(
    before: IcpService,
    after: IcpService,
    id: Seq<char>,
    reply: EngineReply,
    now: Timestamp,
    r: Result<Outcome, ApiError>,
)
    requires
        buy_finished(before, after, id, reply, now, r),
    ensures
        r is Ok <==> before.transactions@.contains_key(id) && (before.config.production ==> reply
            is Persisted),
        r is Err ==> after.transactions@ == before.transactions@ && after.mandates
            == before.mandates,
        r matches Err(e) ==> (before.config.production ==> match reply {
            EngineReply::NoEngine => e@ is EngineUnavailable,
            EngineReply::NoBuyer => e@ is PreconditionFailed,
            EngineReply::Failed(why) => e@ == why@,
            EngineReply::Persisted(_) => e@ is ResourceNotFound,
        }),
{
}

/// A refused purchase reserves nothing and changes nothing, except that a quote that is over is
/// marked as expired.
pub proof fn law_refused_purchases_reserve_nothing(
    before: IcpService,
    after: IcpService,
    input: IntentInput,
    params: BuyParams,
    mandate: Option<&MandateEvaluation>,
    now: Timestamp,
    e: ApiError,
)
    requires
        buy_begun(before, after, input, params, mandate, now, Err(e)),
    ensures
        after.mandates@ == before.mandates@,
        after.subscriptions == before.subscriptions && after.peer_quotes == before.peer_quotes
            && after.receipts == before.receipts,
        forall|k: Seq<char>|
            after.transactions@.contains_key(k) <==> before.transactions@.contains_key(k),
        forall|k: Seq<char>|
            before.transactions@.contains_key(k) && #[trigger] after.transactions@[k]
                != before.transactions@[k] ==> {
                let was = before.transactions@[k];
                &&& k == params.transaction_id@
                &&& was.state is Quoted
                &&& was.quote_expires_at matches Some(at) && at@ <= now@
                &&& after.transactions@[k] == (Transaction {
                    state: TransactionState::Expired,
                    updated_at: now,
                    ..was
                })
            },
{
}

} // verus!
