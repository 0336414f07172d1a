//! Recurring purchases: `subscribe`, `renew`, `pause` and
//! `cancel_subscription`.
//!
//! A charge is made in two steps: it is priced and reserved first, and takes
//! effect once the engine has replied.

use vstd::prelude::*;

use crate::arith::clamp64;
use crate::errors::{ApiError, ErrorView};
use crate::mandate::{MandateEvaluation, UsageView};
use crate::models::{
    Address, Buyer, OrderSummary, PaymentInstrument, RenewParams, RequestItem, SubscribeParams,
    Subscription, SubscriptionRefParams, SubscriptionStatus, Totals, Transaction, TransactionState,
};
use crate::pricing::{
    basket_error, basket_price, flat_tax, law_baskets_need_sound_positions, payment_error, period_advance, period_can_start,
    period_end, period_is_representable, price_request_items, priced_basket, total_amount_minor, total_of,
    validate_payment_instrument,
};
use crate::service::helpers::{
    blank_buyer, blank_totals, currency_of, engine_error, gained, intent_currency, jti_of,
    mandate_id, mandate_usable, missing, order_from_reply, order_id, order_id_of,
    owns_subscription, reservation, subscription_for_tenant, summarizes, EngineReply,
};
use crate::service::{IcpService, IntentInput, Outcome};
use crate::table::Table;
use crate::text::join2;
use crate::time::{day_nanos, representable, Span, Timestamp};

verus! {

// ---------------------------------------------------------------------------
// Charges
// ---------------------------------------------------------------------------

/// What a charge for these items comes to, tax included.
pub open spec fn charge_total(items: Seq<RequestItem>) -> int {
    let subtotal = basket_price(items, items.len() as int);
    clamp64(subtotal + flat_tax(subtotal))
}

/// Whether this is a charge for the items, before the engine has replied.
pub open spec fn charge_for(
    t: Transaction,
    input: IntentInput,
    buyer: Buyer,
    ship_to: Option<Address>,
    items: Seq<RequestItem>,
    currency: Seq<char>,
    now: Timestamp,
    id: String,
) -> bool {
    &&& t.id == id
    &&& t.state is Completed
    &&& t.agent_id == input.agent.raw
    &&& t.tenant_id == input.tenant.tenant_id
    &&& t.mandate_jti == input.envelope.mandate_jti
    &&& t.currency@ == currency
    &&& t.jurisdiction == input.envelope.context.jurisdiction
    &&& t.buyer == buyer
    &&& t.ship_to == ship_to
    &&& t.bill_to is None
    &&& priced_basket(t.line_items@, t.totals, items, currency)
    &&& t.order_id is None
    &&& t.quote_expires_at is None
    &&& t.created_at == now
    &&& t.updated_at == now
    &&& t.external_refs@ == Map::<Seq<char>, String>::empty()
}

/// The charge with the order that the engine persisted for it.
pub open spec fn with_order(t: Transaction, order_id: Option<String>) -> Transaction {
    Transaction { order_id, ..t }
}

/// First half of a charge: prices the items.
pub fn begin_subscription_charge(
    input: &IntentInput,
    buyer: &Buyer,
    ship_to: Option<Address>,
    items: &Vec<RequestItem>,
    currency: &str,
    now: Timestamp,
    id: String,
) -> (r: Result<Transaction, ApiError>)
    ensures
        match r {
            Ok(t) => basket_error(items@, "subscription.items"@, 0) is None && charge_for(
                t,
                *input,
                *buyer,
                ship_to,
                items@,
                currency@,
                now,
                id,
            ),
            Err(e) => basket_error(items@, "subscription.items"@, 0) == Some(e@),
        },
{
    let (line_items, totals) = match price_request_items(items, currency, "subscription.items") {
        Ok(p) => p,
        Err(e) => {
            return Err(e);
        },
    };
    Ok(
        Transaction {
            id,
            state: TransactionState::Completed,
            agent_id: input.agent.raw.clone(),
            tenant_id: input.tenant.tenant_id.clone(),
            mandate_jti: input.envelope.mandate_jti.clone(),
            currency: String::from_str(currency),
            jurisdiction: input.envelope.context.jurisdiction.clone(),
            buyer: buyer.clone(),
            ship_to,
            bill_to: None,
            line_items,
            totals,
            order_id: None,
            quote_expires_at: None,
            created_at: now,
            updated_at: now,
            external_refs: Table::new(),
        },
    )
}

impl IcpService {
    /// Second half of a charge, with the reply of the engine: the transaction is
    /// kept only when the engine's reply allows it.
    pub fn finish_subscription_charge(&mut self, charge: Transaction, reply: EngineReply) -> (r: Result<
        (Transaction, Option<OrderSummary>),
        ApiError,
    >)
        requires
            old(self).wf(),
        ensures
            final(self).wf(),
            *final(self) == (IcpService { transactions: final(self).transactions, ..*old(self) }),
            ({
                let error = engine_error(reply, old(self).config.production);
                match r {
                    Ok((t, order)) => {
                        let kept = with_order(charge, order_id_of(order));
                        &&& error is None
                        &&& summarizes(order, reply)
                        &&& final(self).transactions@ == old(self).transactions@.insert(
                            charge.id@,
                            kept,
                        )
                        &&& t.same_as(kept)
                    },
                    Err(e) => error == Some(e@) && final(self).transactions@ == old(
                        self,
                    ).transactions@,
                }
            }),
    {
        let order = match order_from_reply(reply, self.config.is_production()) {
            Ok(order) => order,
            Err(e) => {
                return Err(e);
            },
        };
        let mut t = charge;
        t.order_id = order_id(&order);
        let shown = self.keep_transaction(t);
        Ok((shown, order))
    }
}

/// Whether this is the transaction that stands for a change of a subscription.
/// No money moves with it.
pub open spec fn placeholder(
    t: Transaction,
    input: IntentInput,
    sub: Subscription,
    state: TransactionState,
    now: Timestamp,
    id: String,
) -> bool {
    &&& t.id == id
    &&& t.state == state
    &&& t.agent_id == input.agent.raw
    &&& t.tenant_id == input.tenant.tenant_id
    &&& t.mandate_jti == sub.mandate_jti
    &&& t.currency == sub.currency
    &&& t.jurisdiction == input.envelope.context.jurisdiction
    &&& t.buyer == sub.buyer
    &&& t.ship_to == sub.ship_to
    &&& t.bill_to is None
    &&& t.order_id is None
    &&& t.quote_expires_at is None
    &&& t.created_at == now
    &&& t.updated_at == now
    &&& t.external_refs@ == Map::<Seq<char>, String>::empty().insert("subscription_id"@, sub.id)
}

/// Whether the transaction has no positions and no sums.
pub open spec fn unpriced(t: Transaction) -> bool {
    t.line_items@.len() == 0 && blank_totals(t.totals)
}

/// A transaction that stands for a change of a subscription and refers to it.
pub fn subscription_pseudo_txn(
    input: &IntentInput,
    sub: &Subscription,
    state: TransactionState,
    now: Timestamp,
    id: String,
) -> (t: Transaction)
    ensures
        placeholder(t, *input, *sub, state, now, id),
        unpriced(t),
{
    let mut external_refs: Table<String> = Table::new();
    external_refs.insert(String::from_str("subscription_id"), sub.id.clone());
    Transaction {
        id,
        state,
        agent_id: input.agent.raw.clone(),
        tenant_id: input.tenant.tenant_id.clone(),
        mandate_jti: sub.mandate_jti.clone(),
        currency: sub.currency.clone(),
        jurisdiction: input.envelope.context.jurisdiction.clone(),
        buyer: sub.buyer.clone(),
        ship_to: sub.ship_to.clone(),
        bill_to: None,
        line_items: Vec::new(),
        totals: Totals::default(),
        order_id: None,
        quote_expires_at: None,
        created_at: now,
        updated_at: now,
        external_refs,
    }
}

// ---------------------------------------------------------------------------
// subscribe
// ---------------------------------------------------------------------------

/// Why a subscription cannot be opened, before the budget is asked.
pub open spec fn subscribe_error(params: SubscribeParams, mode: Seq<char>) -> Option<ErrorView> {
    if params.items@.len() == 0 {
        Some(ErrorView::InvalidRequest("subscribe.params.items must be non-empty"@))
    } else if payment_error(params.payment, mode) is Some {
        payment_error(params.payment, mode)
    } else {
        basket_error(params.items@, "subscribe.params.items"@, 0)
    }
}

/// The days of the free trial, when there is one.
pub open spec fn trial_of(params: SubscribeParams) -> Option<int> {
    match params.trial_days {
        Some(d) => if d > 0 {
            Some(d as int)
        } else {
            None
        },
        None => None,
    }
}

/// When the first period of a new subscription ends.
pub open spec fn first_period_end(params: SubscribeParams, now: int) -> int {
    match trial_of(params) {
        Some(days) => now + days * day_nanos(),
        None => period_end(now, params.cadence),
    }
}

/// Whether the first period of a new subscription lies on the calendar.
pub open spec fn first_period_fits(params: SubscribeParams, now: int) -> bool {
    match trial_of(params) {
        Some(days) => representable(now + days * day_nanos()),
        None => period_can_start(now, params.cadence),
    }
}

/// Whether the first period of a new subscription lies on the calendar.
pub fn first_period_is_representable(params: &SubscribeParams, now: Timestamp) -> (r: bool)
    ensures
        r == first_period_fits(*params, now@),
{
    match params.trial_days {
        Some(d) => if d > 0 {
            now.checked_add(Span::days(d as i64)).is_some()
        } else {
            period_is_representable(now, params.cadence)
        },
        None => period_is_representable(now, params.cadence),
    }
}

/// The buyer that the caller gave, or a blank one.
pub open spec fn buyer_or_blank(b: Buyer, given: Option<Buyer>) -> bool {
    match given {
        Some(g) => b == g,
        None => blank_buyer(b),
    }
}

/// Whether this is a new subscription. In a free trial nothing was charged yet;
/// otherwise the first charge has been made.
pub open spec fn subscribed(
    s: Subscription,
    input: IntentInput,
    params: SubscribeParams,
    mandate: Option<&MandateEvaluation>,
    now: Timestamp,
    id: String,
    charge_id: String,
) -> bool {
    let trial = trial_of(params) is Some;
    &&& s.id == id
    &&& s.status == (if trial {
        SubscriptionStatus::Trialing
    } else {
        SubscriptionStatus::Active
    })
    &&& s.agent_id == input.agent.raw
    &&& s.tenant_id == input.tenant.tenant_id
    &&& s.mandate_jti == mandate_id(mandate)
    &&& buyer_or_blank(s.buyer, params.buyer)
    &&& s.ship_to == params.ship_to
    &&& s.items@ == params.items@
    &&& s.currency@ == intent_currency(input)
    &&& s.cadence == params.cadence
    &&& s.current_period_start == now
    &&& s.current_period_end@ == first_period_end(params, now@)
    &&& s.next_charge_at == s.current_period_end
    &&& s.charges_completed == (if trial {
        0u32
    } else {
        1u32
    })
    &&& s.last_transaction_id == (if trial {
        None
    } else {
        Some(charge_id)
    })
    &&& s.payment_instrument == Some(params.payment)
    &&& s.created_at == now
    &&& s.updated_at == now
    &&& s.canceled_at is None
    &&& s.paused_at is None
    &&& s.failed_renewal_attempts == 0
    &&& s.trial_end == (if trial {
        Some(s.current_period_end)
    } else {
        None
    })
}

/// A subscription that waits for the reply of the engine on its first charge.
#[derive(Debug)]
pub struct PendingSubscription {
    pub subscription: Subscription,
    pub charge: Transaction,
}

/// What the first half of a `subscribe` came to.
#[derive(Debug)]
pub enum SubscribeStep {
    /// A free trial began; nothing is charged yet.
    Enrolled(Outcome),
    /// The first charge is to be persisted with the engine.
    Charge(PendingSubscription),
}

/// The reservation that a new subscription makes for its first charge, whether
/// it is made now or at the end of a trial.
pub open spec fn subscribe_reservation(
    ledger: Map<Seq<char>, UsageView>,
    mandate: Option<&MandateEvaluation>,
    input: IntentInput,
    params: SubscribeParams,
    now: int,
) -> (Map<Seq<char>, UsageView>, Option<ErrorView>) {
    reservation(
        ledger,
        mandate,
        input.tenant.tenant_id@,
        charge_total(params.items@),
        intent_currency(input),
        now,
    )
}

/// Whether the map gained this subscription under its id, and nothing else
/// happened to it.
pub open spec fn gained_subscription(
    before: Map<Seq<char>, Subscription>,
    after: Map<Seq<char>, Subscription>,
    s: Subscription,
) -> bool {
    &&& after == before.insert(s.id@, after[s.id@])
    &&& after[s.id@].same_as(s)
}

/// Whether the outcome is the enrollment into a free trial: the basket is priced
/// as a preview of the first charge.
pub open spec fn enrolled(
    o: Outcome,
    input: IntentInput,
    params: SubscribeParams,
    mandate: Option<&MandateEvaluation>,
    now: Timestamp,
    subscription_id: String,
    transaction_id: String,
) -> bool {
    &&& trial_of(params) is Some
    &&& o.subscription matches Some(s) && subscribed(
        s,
        input,
        params,
        mandate,
        now,
        subscription_id,
        transaction_id,
    ) && placeholder(o.transaction, input, s, TransactionState::Authorized, now, transaction_id)
    &&& priced_basket(
        o.transaction.line_items@,
        o.transaction.totals,
        params.items@,
        intent_currency(input),
    )
    &&& o.order is None
    &&& o.peer_quote is None
}

/// What the first half of a `subscribe` does.
pub open spec fn subscribe_begun(
    before: IcpService,
    after: IcpService,
    input: IntentInput,
    params: SubscribeParams,
    mandate: Option<&MandateEvaluation>,
    now: Timestamp,
    subscription_id: String,
    transaction_id: String,
    r: Result<SubscribeStep, ApiError>,
) -> bool {
    &&& after.wf()
    &&& after == (IcpService {
        transactions: after.transactions,
        subscriptions: after.subscriptions,
        mandates: after.mandates,
        ..before
    })
    &&& {
        let error = subscribe_error(params, before.config.payment_execution_mode@);
        let reserved = subscribe_reservation(
            before.mandates@,
            mandate,
            input,
            params,
            now@,
        );
        match r {
            Ok(step) => {
                &&& error is None
                &&& reserved.1 is None
                &&& after.mandates@ == reserved.0
                &&& match step {
                    SubscribeStep::Enrolled(o) => {
                        &&& enrolled(
                            o,
                            input,
                            params,
                            mandate,
                            now,
                            subscription_id,
                            transaction_id,
                        )
                        &&& gained(
                            before.transactions@,
                            after.transactions@,
                            o.transaction,
                        )
                        &&& gained_subscription(
                            before.subscriptions@,
                            after.subscriptions@,
                            o.subscription->0,
                        )
                    },
                    SubscribeStep::Charge(p) => {
                        &&& trial_of(params) is None
                        &&& subscribed(
                            p.subscription,
                            input,
                            params,
                            mandate,
                            now,
                            subscription_id,
                            transaction_id,
                        )
                        &&& charge_for(
                            p.charge,
                            input,
                            p.subscription.buyer,
                            params.ship_to,
                            params.items@,
                            intent_currency(input),
                            now,
                            transaction_id,
                        )
                        &&& after.transactions@ == before.transactions@
                        &&& after.subscriptions@ == before.subscriptions@
                    },
                }
            },
            Err(e) => {
                &&& after.transactions@ == before.transactions@
                &&& after.subscriptions@ == before.subscriptions@
                &&& if error is Some {
                    error == Some(e@) && after.mandates@ == before.mandates@
                } else {
                    reserved.1 == Some(e@) && after.mandates@ == reserved.0
                }
            },
        }
    }
}

/// What the second half of a `subscribe` does.
pub open spec fn subscribe_finished(
    before: IcpService,
    after: IcpService,
    pending: PendingSubscription,
    reply: EngineReply,
    r: Result<Outcome, ApiError>,
) -> bool {
    &&& after.wf()
    &&& after == (IcpService {
        transactions: after.transactions,
        subscriptions: after.subscriptions,
        ..before
    })
    &&& {
        let error = engine_error(reply, before.config.production);
        match r {
            Ok(o) => {
                let kept = with_order(pending.charge, order_id_of(o.order));
                &&& error is None
                &&& summarizes(o.order, reply)
                &&& after.transactions@ == before.transactions@.insert(
                    pending.charge.id@,
                    kept,
                )
                &&& o.transaction.same_as(kept)
                &&& after.subscriptions@ == before.subscriptions@.insert(
                    pending.subscription.id@,
                    pending.subscription,
                )
                &&& o.subscription matches Some(s) && s.same_as(pending.subscription)
                &&& o.peer_quote is None
            },
            Err(e) => error == Some(e@) && after.subscriptions@
                == before.subscriptions@ && after.transactions@
                == before.transactions@,
        }
    }
}

impl IcpService {
    /// First half of a `subscribe`: checks and prices the basket and reserves the
    /// first charge. A free trial begins at once; otherwise the charge that comes
    /// back is to be persisted with the engine.
    pub fn begin_subscribe(
        &mut self,
        input: &IntentInput,
        params: SubscribeParams,
        mandate: Option<&MandateEvaluation>,
        now: Timestamp,
        subscription_id: String,
        transaction_id: String,
    ) -> (r: Result<SubscribeStep, ApiError>)
        requires
            old(self).wf(),
            mandate_usable(mandate),
            subscribe_error(params, old(self).config.payment_execution_mode@) is None
                && subscribe_reservation(
                old(self).mandates@,
                mandate,
                *input,
                params,
                now@,
            ).1 is None ==> first_period_fits(params, now@),
        ensures
            subscribe_begun(*old(self), *final(self), *input, params, mandate, now, subscription_id, transaction_id, r),
    {
        if params.items.len() == 0 {
            return Err(
                ApiError::InvalidRequest(
                    String::from_str("subscribe.params.items must be non-empty"),
                ),
            );
        }
        match validate_payment_instrument(
            &params.payment,
            self.config.payment_execution_mode.as_str(),
        ) {
            Ok(()) => {},
            Err(e) => {
                return Err(e);
            },
        }
        let currency = currency_of(input);
        let (lines, totals) = match price_request_items(
            &params.items,
            currency.as_str(),
            "subscribe.params.items",
        ) {
            Ok(p) => p,
            Err(e) => {
                return Err(e);
            },
        };
        match self.reserve_mandate_spend(
            mandate,
            input.tenant.tenant_id.as_str(),
            total_amount_minor(&totals),
            currency.as_str(),
            now,
        ) {
            Ok(()) => {},
            Err(e) => {
                return Err(e);
            },
        }
        let buyer = match params.buyer {
            Some(b) => b,
            None => Buyer::default(),
        };
        let trial: u32 = match params.trial_days {
            Some(d) => d,
            None => 0,
        };
        let end = if trial > 0 {
            now.plus(Span::days(trial as i64))
        } else {
            period_advance(now, params.cadence)
        };
        let mut sub = Subscription {
            id: subscription_id,
            status: SubscriptionStatus::Active,
            agent_id: input.agent.raw.clone(),
            tenant_id: input.tenant.tenant_id.clone(),
            mandate_jti: jti_of(mandate),
            buyer,
            ship_to: params.ship_to,
            items: params.items,
            currency,
            cadence: params.cadence,
            current_period_start: now,
            current_period_end: end,
            next_charge_at: end,
            charges_completed: 0,
            last_transaction_id: None,
            payment_instrument: Some(params.payment),
            created_at: now,
            updated_at: now,
            canceled_at: None,
            paused_at: None,
            failed_renewal_attempts: 0,
            trial_end: None,
        };
        if trial > 0 {
            sub.status = SubscriptionStatus::Trialing;
            sub.trial_end = Some(end);
            let mut t = subscription_pseudo_txn(
                input,
                &sub,
                TransactionState::Authorized,
                now,
                transaction_id,
            );
            t.line_items = lines;
            t.totals = totals;
            let shown_sub = self.keep_subscription(sub);
            let shown = self.keep_transaction(t);
            return Ok(
                SubscribeStep::Enrolled(
                    Outcome {
                        transaction: shown,
                        order: None,
                        subscription: Some(shown_sub),
                        peer_quote: None,
                    },
                ),
            );
        }
        sub.charges_completed = 1;
        sub.last_transaction_id = Some(transaction_id.clone());
        proof {
            lemma_basket_error_prefix(
                sub.items@,
                "subscribe.params.items"@,
                "subscription.items"@,
                0,
            );
        }
        match begin_subscription_charge(
            input,
            &sub.buyer,
            sub.ship_to.clone(),
            &sub.items,
            sub.currency.as_str(),
            now,
            transaction_id,
        ) {
            Ok(charge) => Ok(SubscribeStep::Charge(PendingSubscription { subscription: sub, charge })),
            Err(e) => Err(e),
        }
    }

    /// Second half of a `subscribe`, with the reply of the engine on the first
    /// charge.
    pub fn finish_subscribe(&mut self, pending: PendingSubscription, reply: EngineReply) -> (r: Result<
        Outcome,
        ApiError,
    >)
        requires
            old(self).wf(),
        ensures
            subscribe_finished(*old(self), *final(self), pending, reply, r),
    {
        let (shown, order) = match self.finish_subscription_charge(pending.charge, reply) {
            Ok(p) => p,
            Err(e) => {
                return Err(e);
            },
        };
        let shown_sub = self.keep_subscription(pending.subscription);
        Ok(
            Outcome {
                transaction: shown,
                order,
                subscription: Some(shown_sub),
                peer_quote: None,
            },
        )
    }
}

/// Whether a basket can be priced does not depend on the name of its field.
pub proof fn lemma_basket_error_prefix(
    items: Seq<RequestItem>,
    a: Seq<char>,
    b: Seq<char>,
    i: int,
)
    requires
        0 <= i <= items.len(),
    ensures
        basket_error(items, a, i) is None <==> basket_error(items, b, i) is None,
    decreases items.len() - i,
{
    if i < items.len() {
        lemma_basket_error_prefix(items, a, b, i + 1);
    }
}

// ---------------------------------------------------------------------------
// renew
// ---------------------------------------------------------------------------

/// Why a subscription cannot be renewed, before the budget is asked.
pub open spec fn renew_error(
    m: Map<Seq<char>, Subscription>,
    params: RenewParams,
    mode: Seq<char>,
    tenant: Seq<char>,
) -> Option<ErrorView> {
    let id = params.subscription_id@;
    if payment_error(params.payment, mode) is Some {
        payment_error(params.payment, mode)
    } else if !owns_subscription(m, id, tenant) {
        Some(missing("subscription"@, id))
    } else if m[id].status is Canceled {
        Some(
            ErrorView::PreconditionFailed("subscription is canceled and cannot be renewed"@),
        )
    } else if m[id].status is Paused {
        Some(
            ErrorView::PreconditionFailed("subscription is paused; resume before renewing"@),
        )
    } else {
        basket_error(m[id].items@, "subscription.items"@, 0)
    }
}

/// The reservation that a renewal makes.
pub open spec fn renew_reservation(
    ledger: Map<Seq<char>, UsageView>,
    mandate: Option<&MandateEvaluation>,
    tenant: Seq<char>,
    sub: Subscription,
    now: int,
) -> (Map<Seq<char>, UsageView>, Option<ErrorView>) {
    reservation(ledger, mandate, tenant, charge_total(sub.items@), sub.currency@, now)
}

/// One more charge.
pub open spec fn one_more(n: u32) -> u32 {
    if n == u32::MAX {
        n
    } else {
        (n + 1) as u32
    }
}

/// One more charge.
pub(crate) fn count_one_more(n: u32) -> (r: u32)
    ensures
        r == one_more(n),
{
    n.saturating_add(1)
}

/// Whether `s` is the subscription after it was renewed by an agent: the new
/// period starts where the old one ended.
pub open spec fn renewed(
    before: Subscription,
    s: Subscription,
    charge_id: String,
    payment: PaymentInstrument,
    mandate: Option<&MandateEvaluation>,
    now: Timestamp,
) -> bool {
    &&& s == (Subscription {
        current_period_start: before.current_period_end,
        current_period_end: s.current_period_end,
        next_charge_at: s.current_period_end,
        charges_completed: one_more(before.charges_completed),
        last_transaction_id: Some(charge_id),
        status: SubscriptionStatus::Active,
        trial_end: None,
        failed_renewal_attempts: 0,
        payment_instrument: Some(payment),
        updated_at: now,
        mandate_jti: if mandate is Some {
            mandate_id(mandate)
        } else {
            before.mandate_jti
        },
        ..before
    })
    &&& s.current_period_end@ == period_end(before.current_period_end@, before.cadence)
}

/// What the first half of a `renew` does.
pub open spec fn renew_begun(
    before: IcpService,
    after: IcpService,
    input: IntentInput,
    params: RenewParams,
    mandate: Option<&MandateEvaluation>,
    now: Timestamp,
    transaction_id: String,
    r: Result<Transaction, ApiError>,
) -> bool {
    &&& after.wf()
    &&& after == (IcpService { mandates: after.mandates, ..before })
    &&& {
        let m = before.subscriptions@;
        let sub = m[params.subscription_id@];
        let tenant = input.tenant.tenant_id@;
        let error = renew_error(
            m,
            params,
            before.config.payment_execution_mode@,
            tenant,
        );
        let reserved = renew_reservation(before.mandates@, mandate, tenant, sub, now@);
        match r {
            Ok(t) => {
                &&& error is None
                &&& reserved.1 is None
                &&& after.mandates@ == reserved.0
                &&& charge_for(
                    t,
                    input,
                    sub.buyer,
                    sub.ship_to,
                    sub.items@,
                    sub.currency@,
                    now,
                    transaction_id,
                )
            },
            Err(e) => if error is Some {
                error == Some(e@) && after.mandates@ == before.mandates@
            } else {
                reserved.1 == Some(e@) && after.mandates@ == reserved.0
            },
        }
    }
}

/// What the second half of a `renew` does.
pub open spec fn renew_finished(
    before: IcpService,
    after: IcpService,
    params: RenewParams,
    charge: Transaction,
    mandate: Option<&MandateEvaluation>,
    reply: EngineReply,
    now: Timestamp,
    r: Result<Outcome, ApiError>,
) -> bool {
    &&& after.wf()
    &&& after == (IcpService {
        transactions: after.transactions,
        subscriptions: after.subscriptions,
        ..before
    })
    &&& {
        let m = before.subscriptions@;
        let id = params.subscription_id@;
        let error = engine_error(reply, before.config.production);
        match r {
            Ok(o) => {
                let kept = with_order(charge, order_id_of(o.order));
                &&& error is None
                &&& summarizes(o.order, reply)
                &&& after.transactions@ == before.transactions@.insert(
                    charge.id@,
                    kept,
                )
                &&& o.transaction.same_as(kept)
                &&& after.subscriptions@ == m.insert(
                    id,
                    after.subscriptions@[id],
                )
                &&& renewed(
                    m[id],
                    after.subscriptions@[id],
                    charge.id,
                    params.payment,
                    mandate,
                    now,
                )
                &&& o.subscription matches Some(s) && s.same_as(
                    after.subscriptions@[id],
                )
                &&& o.peer_quote is None
            },
            Err(e) => error == Some(e@) && after.subscriptions@ == m
                && after.transactions@ == before.transactions@,
        }
    }
}

impl IcpService {
    /// First half of a `renew`: checks the instrument and the subscription and
    /// reserves the charge. The charge that comes back is to be persisted with
    /// the engine.
    pub fn begin_renew(
        &mut self,
        input: &IntentInput,
        params: &RenewParams,
        mandate: Option<&MandateEvaluation>,
        now: Timestamp,
        transaction_id: String,
    ) -> (r: Result<Transaction, ApiError>)
        requires
            old(self).wf(),
            mandate_usable(mandate),
        ensures
            renew_begun(*old(self), *final(self), *input, *params, mandate, now, transaction_id, r),
    {
        match validate_payment_instrument(
            &params.payment,
            self.config.payment_execution_mode.as_str(),
        ) {
            Ok(()) => {},
            Err(e) => {
                return Err(e);
            },
        }
        let tenant = input.tenant.tenant_id.as_str();
        let sub = match subscription_for_tenant(
            &self.subscriptions,
            params.subscription_id.as_str(),
            tenant,
        ) {
            Ok(s) => s,
            Err(e) => {
                return Err(e);
            },
        };
        match sub.status {
            SubscriptionStatus::Canceled => {
                return Err(
                    ApiError::PreconditionFailed(
                        String::from_str("subscription is canceled and cannot be renewed"),
                    ),
                );
            },
            SubscriptionStatus::Paused => {
                return Err(
                    ApiError::PreconditionFailed(
                        String::from_str("subscription is paused; resume before renewing"),
                    ),
                );
            },
            _ => {},
        }
        let charge = match begin_subscription_charge(
            input,
            &sub.buyer,
            sub.ship_to.clone(),
            &sub.items,
            sub.currency.as_str(),
            now,
            transaction_id,
        ) {
            Ok(t) => t,
            Err(e) => {
                return Err(e);
            },
        };
        let total: i64 = total_amount_minor(&charge.totals);
        match self.reserve_mandate_spend(mandate, tenant, total, charge.currency.as_str(), now) {
            Ok(()) => Ok(charge),
            Err(e) => Err(e),
        }
    }

    /// Second half of a `renew`, with the reply of the engine on the charge.
    pub fn finish_renew(
        &mut self,
        params: RenewParams,
        charge: Transaction,
        mandate: Option<&MandateEvaluation>,
        reply: EngineReply,
        now: Timestamp,
    ) -> (r: Result<Outcome, ApiError>)
        requires
            old(self).wf(),
            old(self).subscriptions@.contains_key(params.subscription_id@),
            period_can_start(
                old(self).subscriptions@[params.subscription_id@].current_period_end@,
                old(self).subscriptions@[params.subscription_id@].cadence,
            ),
        ensures
            renew_finished(*old(self), *final(self), params, charge, mandate, reply, now, r),
    {
        let ghost m = self.subscriptions@;
        let charge_id = charge.id.clone();
        let (shown, order) = match self.finish_subscription_charge(charge, reply) {
            Ok(p) => p,
            Err(e) => {
                return Err(e);
            },
        };
        let id = params.subscription_id.as_str();
        let shown_sub = match self.take_subscription(id) {
            Some(mut s) => {
                let end = period_advance(s.current_period_end, s.cadence);
                s.current_period_start = s.current_period_end;
                s.current_period_end = end;
                s.next_charge_at = end;
                s.charges_completed = count_one_more(s.charges_completed);
                s.last_transaction_id = Some(charge_id);
                s.status = SubscriptionStatus::Active;
                s.trial_end = None;
                s.failed_renewal_attempts = 0;
                s.payment_instrument = Some(params.payment);
                s.updated_at = now;
                if mandate.is_some() {
                    s.mandate_jti = jti_of(mandate);
                }
                let shown_sub = self.keep_subscription(s);
                assert(self.subscriptions@ =~= m.insert(id@, s));
                Some(shown_sub)
            },
            None => None,
        };
        Ok(Outcome { transaction: shown, order, subscription: shown_sub, peer_quote: None })
    }
}

// ---------------------------------------------------------------------------
// pause and cancel
// ---------------------------------------------------------------------------

/// Why a subscription cannot be paused.
pub open spec fn pause_error(
    m: Map<Seq<char>, Subscription>,
    id: Seq<char>,
    tenant: Seq<char>,
) -> Option<ErrorView> {
    if !owns_subscription(m, id, tenant) {
        Some(missing("subscription"@, id))
    } else if m[id].status is Canceled {
        Some(
            ErrorView::PreconditionFailed(
                "cannot pause subscription in state "@ + m[id].status.label(),
            ),
        )
    } else {
        None
    }
}

/// Why a subscription cannot be canceled.
pub open spec fn cancel_error(
    m: Map<Seq<char>, Subscription>,
    id: Seq<char>,
    tenant: Seq<char>,
) -> Option<ErrorView> {
    if !owns_subscription(m, id, tenant) {
        Some(missing("subscription"@, id))
    } else if m[id].status is Canceled {
        Some(ErrorView::PreconditionFailed("subscription already canceled"@))
    } else {
        None
    }
}

/// The subscription once it is paused.
pub open spec fn paused(s: Subscription, now: Timestamp) -> Subscription {
    Subscription {
        status: SubscriptionStatus::Paused,
        paused_at: Some(now),
        updated_at: now,
        ..s
    }
}

/// The subscription once it is canceled.
pub open spec fn canceled(s: Subscription, now: Timestamp) -> Subscription {
    Subscription {
        status: SubscriptionStatus::Canceled,
        canceled_at: Some(now),
        updated_at: now,
        ..s
    }
}

/// Whether the outcome shows the changed subscription, with a placeholder for
/// the transaction.
pub open spec fn shows_change(
    o: Outcome,
    input: IntentInput,
    s: Subscription,
    now: Timestamp,
    transaction_id: String,
) -> bool {
    &&& o.subscription matches Some(shown) && shown.same_as(s)
    &&& placeholder(
        o.transaction,
        input,
        s,
        TransactionState::Canceled,
        now,
        transaction_id,
    )
    &&& unpriced(o.transaction)
    &&& o.order is None
    &&& o.peer_quote is None
}

/// What pausing a subscription does.
pub open spec fn pause_done(
    before: IcpService,
    after: IcpService,
    input: IntentInput,
    params: SubscriptionRefParams,
    now: Timestamp,
    transaction_id: String,
    r: Result<Outcome, ApiError>,
) -> bool {
    &&& after.wf()
    &&& after == (IcpService {
        transactions: after.transactions,
        subscriptions: after.subscriptions,
        ..before
    })
    &&& {
        let m = before.subscriptions@;
        let id = params.subscription_id@;
        let error = pause_error(m, id, input.tenant.tenant_id@);
        match r {
            Ok(o) => {
                &&& error is None
                &&& after.subscriptions@ == m.insert(id, paused(m[id], now))
                &&& shows_change(o, input, paused(m[id], now), now, transaction_id)
                &&& gained(before.transactions@, after.transactions@, o.transaction)
            },
            Err(e) => error == Some(e@) && after == before,
        }
    }
}

/// What canceling a subscription does.
pub open spec fn cancel_done(
    before: IcpService,
    after: IcpService,
    input: IntentInput,
    params: SubscriptionRefParams,
    now: Timestamp,
    transaction_id: String,
    r: Result<Outcome, ApiError>,
) -> bool {
    &&& after.wf()
    &&& after == (IcpService {
        transactions: after.transactions,
        subscriptions: after.subscriptions,
        ..before
    })
    &&& {
        let m = before.subscriptions@;
        let id = params.subscription_id@;
        let error = cancel_error(m, id, input.tenant.tenant_id@);
        match r {
            Ok(o) => {
                &&& error is None
                &&& after.subscriptions@ == m.insert(id, canceled(m[id], now))
                &&& shows_change(o, input, canceled(m[id], now), now, transaction_id)
                &&& gained(before.transactions@, after.transactions@, o.transaction)
            },
            Err(e) => error == Some(e@) && after == before,
        }
    }
}

impl IcpService {
    /// Pauses a subscription that is not canceled.
    pub fn do_pause(
        &mut self,
        input: &IntentInput,
        params: SubscriptionRefParams,
        now: Timestamp,
        transaction_id: String,
    ) -> (r: Result<Outcome, ApiError>)
        requires
            old(self).wf(),
        ensures
            pause_done(*old(self), *final(self), *input, params, now, transaction_id, r),
    {
        let ghost m = self.subscriptions@;
        let id = params.subscription_id.as_str();
        match subscription_for_tenant(&self.subscriptions, id, input.tenant.tenant_id.as_str()) {
            Ok(s) => {
                if s.status.is_terminal() {
                    return Err(
                        ApiError::PreconditionFailed(
                            join2("cannot pause subscription in state ", s.status.debug_name()),
                        ),
                    );
                }
            },
            Err(e) => {
                return Err(e);
            },
        }
        match self.take_subscription(id) {
            Some(mut s) => {
                s.status = SubscriptionStatus::Paused;
                s.paused_at = Some(now);
                s.updated_at = now;
                let t = subscription_pseudo_txn(
                    input,
                    &s,
                    TransactionState::Canceled,
                    now,
                    transaction_id,
                );
                let shown_sub = self.keep_subscription(s);
                assert(self.subscriptions@ =~= m.insert(id@, s));
                let shown = self.keep_transaction(t);
                Ok(
                    Outcome {
                        transaction: shown,
                        order: None,
                        subscription: Some(shown_sub),
                        peer_quote: None,
                    },
                )
            },
            None => Err(ApiError::ResourceNotFound(join2("subscription ", id))),
        }
    }

    /// Cancels a subscription that is not canceled yet.
    pub fn do_cancel_subscription(
        &mut self,
        input: &IntentInput,
        params: SubscriptionRefParams,
        now: Timestamp,
        transaction_id: String,
    ) -> (r: Result<Outcome, ApiError>)
        requires
            old(self).wf(),
        ensures
            cancel_done(*old(self), *final(self), *input, params, now, transaction_id, r),
    {
        let ghost m = self.subscriptions@;
        let id = params.subscription_id.as_str();
        match subscription_for_tenant(&self.subscriptions, id, input.tenant.tenant_id.as_str()) {
            Ok(s) => {
                if s.status == SubscriptionStatus::Canceled {
                    return Err(
                        ApiError::PreconditionFailed(
                            String::from_str("subscription already canceled"),
                        ),
                    );
                }
            },
            Err(e) => {
                return Err(e);
            },
        }
        match self.take_subscription(id) {
            Some(mut s) => {
                s.status = SubscriptionStatus::Canceled;
                s.canceled_at = Some(now);
                s.updated_at = now;
                let t = subscription_pseudo_txn(
                    input,
                    &s,
                    TransactionState::Canceled,
                    now,
                    transaction_id,
                );
                let shown_sub = self.keep_subscription(s);
                assert(self.subscriptions@ =~= m.insert(id@, s));
                let shown = self.keep_transaction(t);
                Ok(
                    Outcome {
                        transaction: shown,
                        order: None,
                        subscription: Some(shown_sub),
                        peer_quote: None,
                    },
                )
            },
            None => Err(ApiError::ResourceNotFound(join2("subscription ", id))),
        }
    }
}

// ---------------------------------------------------------------------------
// Laws
// ---------------------------------------------------------------------------

/// The amount that is reserved for a charge is the total of that charge.
pub proof fn law_reserved_amount_is_charged(
    t: Transaction,
    input: IntentInput,
    buyer: Buyer,
    ship_to: Option<Address>,
    items: Seq<RequestItem>,
    currency: Seq<char>,
    now: Timestamp,
    id: String,
)
    requires
        charge_for(t, input, buyer, ship_to, items, currency, now, id),
    ensures
        total_of(t.totals) == charge_total(items),
{
}

/// A canceled subscription stays canceled: it can be neither renewed, paused nor
/// canceled again, by whichever tenant.
pub proof fn law_canceled_is_for_good(
    m: Map<Seq<char>, Subscription>,
    params: RenewParams,
    at: Timestamp,
    mode: Seq<char>,
    tenant: Seq<char>,
)
    requires
        m.contains_key(params.subscription_id@),
    ensures
        ({
            let id = params.subscription_id@;
            let after = m.insert(id, canceled(m[id], at));
            &&& renew_error(after, params, mode, tenant) is Some
            &&& pause_error(after, id, tenant) is Some
            &&& cancel_error(after, id, tenant) is Some
        }),
{
}

/// Renewals do not drift: each period starts exactly where the one before it
/// ended, whenever the renewal is made.
pub proof fn law_renewals_do_not_drift(
    before: Subscription,
    after: Subscription,
    charge_id: String,
    payment: PaymentInstrument,
    mandate: Option<&MandateEvaluation>,
    now: Timestamp,
)
    requires
        renewed(before, after, charge_id, payment, mandate, now),
    ensures
        after.current_period_start == before.current_period_end,
        after.next_charge_at == after.current_period_end,
        after.current_period_end@ == period_end(before.current_period_end@, before.cadence),
{
}

/// A free trial charges nothing: its transaction belongs to the subscription, so
/// it can be neither authorized nor bought.
pub proof fn law_trial_previews_are_linked(
    o: Outcome,
    input: IntentInput,
    params: SubscribeParams,
    mandate: Option<&MandateEvaluation>,
    now: Timestamp,
    subscription_id: String,
    transaction_id: String,
)
    requires
        enrolled(o, input, params, mandate, now, subscription_id, transaction_id),
    ensures
        crate::service::purchase::linked(o.transaction),
        o.subscription matches Some(s) && s.charges_completed == 0 && s.last_transaction_id is None
            && s.next_charge_at@ == now@ + trial_of(params)->0 * day_nanos(),
{
}

/// A new subscription is for the basket, the buyer and the rhythm that were asked for, and
/// is billed at the end of its first period. With a trial nothing is charged until the given
/// number of days is over; otherwise the first charge is made at once, for the basket.
pub proof fn law_subscriptions_are_what_was_asked_for(
    before: IcpService,
    after: IcpService,
    input: IntentInput,
    params: SubscribeParams,
    mandate: Option<&MandateEvaluation>,
    now: Timestamp,
    subscription_id: String,
    transaction_id: String,
    step: SubscribeStep,
)
    requires
        subscribe_begun(
            before,
            after,
            input,
            params,
            mandate,
            now,
            subscription_id,
            transaction_id,
            Ok(step),
        ),
    ensures
        ({
            let s = match step {
                SubscribeStep::Enrolled(o) => o.subscription->0,
                SubscribeStep::Charge(p) => p.subscription,
            };
            let t = match step {
                SubscribeStep::Enrolled(o) => o.transaction,
                SubscribeStep::Charge(p) => p.charge,
            };
            let trial = params.trial_days matches Some(d) && d > 0;
            &&& step is Enrolled <==> trial
            &&& step matches SubscribeStep::Enrolled(o) ==> o.order is None && o.peer_quote is None
            &&& s.id == subscription_id && s.cadence == params.cadence
            &&& s.items@ == params.items@ && s.ship_to == params.ship_to
            &&& params.buyer matches Some(b) ==> s.buyer == b && t.buyer == b
            &&& params.buyer is None ==> s.buyer.email is None
            &&& s.payment_instrument == Some(params.payment)
            &&& s.agent_id == input.agent.raw && s.tenant_id == input.tenant.tenant_id
            &&& mandate matches Some(ev) ==> s.mandate_jti == Some(ev.payload.jti)
            &&& mandate is None ==> s.mandate_jti is None
            &&& input.envelope.context.currency matches Some(c) ==> s.currency@ == c@
            &&& input.envelope.context.currency is None ==> s.currency@ == "USD"@
            &&& s.current_period_start == now && s.created_at == now && s.updated_at == now
            &&& s.next_charge_at == s.current_period_end
            &&& s.failed_renewal_attempts == 0 && s.canceled_at is None && s.paused_at is None
            &&& trial ==> {
                &&& s.status is Trialing && s.charges_completed == 0
                &&& s.last_transaction_id is None && s.trial_end == Some(s.current_period_end)
                &&& s.current_period_end@ == now@ + params.trial_days->0 * 24 * 3_600
                    * 1_000_000_000
                &&& t.state is Authorized && t.external_refs@.contains_key("subscription_id"@)
                    && t.external_refs@["subscription_id"@] == s.id
                &&& after.subscriptions@.contains_key(s.id@)
                &&& after.subscriptions@[s.id@].same_as(s)
                &&& after.transactions@.contains_key(t.id@)
            }
            &&& !trial ==> {
                &&& s.status is Active && s.charges_completed == 1
                &&& s.last_transaction_id == Some(transaction_id) && s.trial_end is None
                &&& s.current_period_end@ == period_end(now@, params.cadence)
                &&& t.state is Completed && t.external_refs@.dom() =~= Set::empty()
                &&& after.subscriptions@ == before.subscriptions@
                &&& after.transactions@ == before.transactions@
            }
            &&& t.id == transaction_id && t.agent_id == input.agent.raw && t.tenant_id
                == input.tenant.tenant_id && t.ship_to == params.ship_to
            &&& t.currency@ == s.currency@
            &&& priced_basket(t.line_items@, t.totals, params.items@, s.currency@)
            &&& t.totals.total matches Some(total) && after.mandates@ == reservation(
                before.mandates@,
                mandate,
                input.tenant.tenant_id@,
                total.amount_minor as int,
                s.currency@,
                now@,
            ).0
        }),
{
}

/// A subscription is opened exactly when its basket holds something that can be priced, its
/// instrument is accepted, and the mandate has room for one charge. A refused one changes
/// nothing.
pub proof fn law_sound_baskets_are_subscribed(
    before: IcpService,
    after: IcpService,
    input: IntentInput,
    params: SubscribeParams,
    mandate: Option<&MandateEvaluation>,
    now: Timestamp,
    subscription_id: String,
    transaction_id: String,
    r: Result<SubscribeStep, ApiError>,
)
    requires
        subscribe_begun(
            before,
            after,
            input,
            params,
            mandate,
            now,
            subscription_id,
            transaction_id,
            r,
        ),
    ensures
        ({
            let subtotal = basket_price(params.items@, params.items@.len() as int);
            let currency = match input.envelope.context.currency {
                Some(c) => c@,
                None => "USD"@,
            };
            let faulty = exists|i: int|
                0 <= i < params.items@.len() && (#[trigger] params.items@[i].quantity <= 0 || (
                params.items@[i].unit_price_hint matches Some(m) && m.amount_minor < 0));
            let room = reservation(
                before.mandates@,
                mandate,
                input.tenant.tenant_id@,
                clamp64(subtotal + flat_tax(subtotal)),
                currency,
                now@,
            ).1 is None;
            &&& r is Ok <==> params.items@.len() > 0 && payment_error(
                params.payment,
                before.config.payment_execution_mode@,
            ) is None && !faulty && room
            &&& r is Err ==> after.subscriptions@ == before.subscriptions@ && after.transactions@
                == before.transactions@
        }),
{
    law_baskets_need_sound_positions(params.items@, "subscribe.params.items"@);
}

/// A subscription takes effect with the reply of the engine: it and its first charge are
/// kept as they were begun, with the order that the engine keeps. In production there is
/// none without an order.
pub proof fn law_subscriptions_take_effect_with_their_charge(
    before: IcpService,
    after: IcpService,
    pending: PendingSubscription,
    reply: EngineReply,
    r: Result<Outcome, ApiError>,
)
    requires
        subscribe_finished(before, after, pending, reply, r),
    ensures
        r is Ok <==> (before.config.production ==> reply is Persisted),
        r is Err ==> after.subscriptions@ == before.subscriptions@ && after.transactions@
            == before.transactions@,
        r matches Ok(o) ==> {
            let sub = pending.subscription;
            let charge = pending.charge;
            let kept = after.transactions@[charge.id@];
            &&& after.subscriptions@.contains_key(sub.id@) && after.subscriptions@[sub.id@] == sub
            &&& after.transactions@.contains_key(charge.id@)
            &&& kept.totals == charge.totals && kept.line_items@ == charge.line_items@
                && kept.state == charge.state && kept.buyer == charge.buyer
            &&& reply matches EngineReply::Persisted(p) ==> kept.order_id == Some(p.id) && (
            o.order matches Some(s) && s.id == p.id && s.order_number == p.order_number && s.total
                == p.total)
            &&& !(reply is Persisted) ==> kept.order_id is None && o.order is None
            &&& o.transaction.same_as(kept)
            &&& o.subscription matches Some(s) && s.same_as(sub)
            &&& forall|k: Seq<char>|
                k != sub.id@ ==> #[trigger] after.subscriptions@[k] == before.subscriptions@[k]
        },
        after.mandates == before.mandates,
{
}

/// A renewal begins exactly when its instrument is accepted, its own tenant asks, the
/// subscription is neither canceled nor paused, its basket can be priced, and the mandate
/// has room. The charge is for the basket, the buyer and the currency of the subscription.
pub proof fn law_running_subscriptions_are_renewed(
    before: IcpService,
    after: IcpService,
    input: IntentInput,
    params: RenewParams,
    mandate: Option<&MandateEvaluation>,
    now: Timestamp,
    transaction_id: String,
    r: Result<Transaction, ApiError>,
)
    requires
        renew_begun(before, after, input, params, mandate, now, transaction_id, r),
    ensures
        ({
            let id = params.subscription_id@;
            let s = before.subscriptions@[id];
            let own = before.subscriptions@.contains_key(id) && s.tenant_id@
                == input.tenant.tenant_id@;
            let subtotal = basket_price(s.items@, s.items@.len() as int);
            let faulty = exists|i: int|
                0 <= i < s.items@.len() && (#[trigger] s.items@[i].quantity <= 0 || (
                s.items@[i].unit_price_hint matches Some(m) && m.amount_minor < 0));
            let reserved = reservation(
                before.mandates@,
                mandate,
                input.tenant.tenant_id@,
                clamp64(subtotal + flat_tax(subtotal)),
                s.currency@,
                now@,
            );
            &&& r is Ok <==> payment_error(
                params.payment,
                before.config.payment_execution_mode@,
            ) is None && own && !(s.status is Canceled) && !(s.status is Paused) && !faulty
                && reserved.1 is None
            &&& r matches Ok(t) ==> {
                &&& t.id == transaction_id && t.state is Completed
                &&& priced_basket(t.line_items@, t.totals, s.items@, s.currency@)
                &&& t.buyer == s.buyer && t.ship_to == s.ship_to && t.currency@ == s.currency@
                &&& t.agent_id == input.agent.raw && t.tenant_id == input.tenant.tenant_id
                &&& after.mandates@ == reserved.0
            }
            &&& after.subscriptions == before.subscriptions && after.transactions
                == before.transactions
        }),
{
    law_baskets_need_sound_positions(
        before.subscriptions@[params.subscription_id@].items@,
        "subscription.items"@,
    );
}

/// A finished renewal moves the subscription on by one period: from where the last one ended
/// to the end of the next, with one more charge on it, and with the instrument that paid.
/// What it is a subscription to stays.
pub proof fn law_renewals_move_on_by_one_period(
    before: IcpService,
    after: IcpService,
    params: RenewParams,
    charge: Transaction,
    mandate: Option<&MandateEvaluation>,
    reply: EngineReply,
    now: Timestamp,
    r: Result<Outcome, ApiError>,
)
    requires
        renew_finished(before, after, params, charge, mandate, reply, now, r),
    ensures
        r is Ok <==> (before.config.production ==> reply is Persisted),
        r is Err ==> after.subscriptions@ == before.subscriptions@ && after.transactions@
            == before.transactions@,
        r matches Ok(o) ==> {
            let id = params.subscription_id@;
            let was = before.subscriptions@[id];
            let s = after.subscriptions@[id];
            let kept = after.transactions@[charge.id@];
            &&& s.status is Active && s.failed_renewal_attempts == 0 && s.trial_end is None
            &&& s.current_period_start == was.current_period_end
            &&& s.current_period_end@ == period_end(was.current_period_end@, was.cadence)
            &&& s.next_charge_at == s.current_period_end
            &&& was.charges_completed < u32::MAX ==> s.charges_completed == was.charges_completed
                + 1
            &&& s.last_transaction_id == Some(charge.id)
            &&& s.payment_instrument == Some(params.payment)
            &&& mandate matches Some(ev) ==> s.mandate_jti == Some(ev.payload.jti)
            &&& mandate is None ==> s.mandate_jti == was.mandate_jti
            &&& s.cadence == was.cadence && s.items == was.items && s.buyer == was.buyer
                && s.ship_to == was.ship_to && s.currency == was.currency && s.tenant_id
                == was.tenant_id && s.agent_id == was.agent_id && s.created_at == was.created_at
            &&& s.updated_at == now
            &&& after.transactions@.contains_key(charge.id@) && kept.totals == charge.totals
                && kept.line_items@ == charge.line_items@
            &&& reply matches EngineReply::Persisted(p) ==> kept.order_id == Some(p.id)
            &&& o.transaction.same_as(kept)
            &&& o.subscription matches Some(shown) && shown.same_as(s)
            &&& forall|k: Seq<char>|
                k != id ==> (after.subscriptions@.contains_key(k)
                    <==> before.subscriptions@.contains_key(k))
                    && #[trigger] after.subscriptions@[k] == before.subscriptions@[k]
        },
        after.mandates == before.mandates,
{
}

/// A subscription is paused by its own tenant unless it is canceled. It then says since
/// when, and is charged no more until it is renewed; nothing else of it changes.
pub proof fn law_paused_subscriptions_keep_their_terms(
    before: IcpService,
    after: IcpService,
    input: IntentInput,
    params: SubscriptionRefParams,
    now: Timestamp,
    transaction_id: String,
    r: Result<Outcome, ApiError>,
)
    requires
        pause_done(before, after, input, params, now, transaction_id, r),
    ensures
        ({
            let id = params.subscription_id@;
            let was = before.subscriptions@[id];
            let own = before.subscriptions@.contains_key(id) && was.tenant_id@
                == input.tenant.tenant_id@;
            &&& r is Ok <==> own && !(was.status is Canceled)
            &&& r matches Err(e) ==> after == before && (own ==> e@ is PreconditionFailed) && (!own
                ==> e@ is ResourceNotFound)
            &&& r matches Ok(o) ==> {
                let s = after.subscriptions@[id];
                &&& s == (Subscription {
                    status: SubscriptionStatus::Paused,
                    paused_at: Some(now),
                    updated_at: now,
                    ..was
                })
                &&& o.subscription matches Some(shown) && shown.same_as(s)
                &&& o.transaction.id == transaction_id && o.transaction.totals.total is None
                &&& o.transaction.external_refs@["subscription_id"@] == s.id
                &&& forall|k: Seq<char>|
                    k != id ==> (after.subscriptions@.contains_key(k)
                        <==> before.subscriptions@.contains_key(k))
                        && #[trigger] after.subscriptions@[k] == before.subscriptions@[k]
            }
            &&& after.mandates == before.mandates
        }),
{
}

/// A subscription is canceled by its own tenant once. It then says since when; nothing else
/// of it changes.
pub proof fn law_canceled_subscriptions_keep_their_terms(
    before: IcpService,
    after: IcpService,
    input: IntentInput,
    params: SubscriptionRefParams,
    now: Timestamp,
    transaction_id: String,
    r: Result<Outcome, ApiError>,
)
    requires
        cancel_done(before, after, input, params, now, transaction_id, r),
    ensures
        ({
            let id = params.subscription_id@;
            let was = before.subscriptions@[id];
            let own = before.subscriptions@.contains_key(id) && was.tenant_id@
                == input.tenant.tenant_id@;
            &&& r is Ok <==> own && !(was.status is Canceled)
            &&& r matches Err(e) ==> after == before && (own ==> e@ is PreconditionFailed) && (!own
                ==> e@ is ResourceNotFound)
            &&& r matches Ok(o) ==> {
                let s = after.subscriptions@[id];
                &&& s == (Subscription {
                    status: SubscriptionStatus::Canceled,
                    canceled_at: Some(now),
                    updated_at: now,
                    ..was
                })
                &&& o.subscription matches Some(shown) && shown.same_as(s)
                &&& o.transaction.id == transaction_id && o.transaction.totals.total is None
                &&& o.transaction.external_refs@["subscription_id"@] == s.id
                &&& forall|k: Seq<char>|
                    k != id ==> (after.subscriptions@.contains_key(k)
                        <==> before.subscriptions@.contains_key(k))
                        && #[trigger] after.subscriptions@[k] == before.subscriptions@[k]
            }
            &&& after.mandates == before.mandates
        }),
{
}

/// The transaction that stands for a change of a subscription belongs to the caller, refers to
/// the subscription, and carries its parties, its mandate and its currency.
pub proof fn law_placeholders_stand_for_their_subscription(
    t: Transaction,
    input: IntentInput,
    sub: Subscription,
    state: TransactionState,
    now: Timestamp,
    id: String,
)
    requires
        placeholder(t, input, sub, state, now, id),
    ensures
        t.id == id && t.state == state && t.agent_id == input.agent.raw && t.tenant_id
            == input.tenant.tenant_id,
        t.mandate_jti == sub.mandate_jti && t.currency == sub.currency && t.buyer == sub.buyer
            && t.ship_to == sub.ship_to && t.bill_to is None,
        t.jurisdiction == input.envelope.context.jurisdiction && t.order_id is None
            && t.quote_expires_at is None,
        t.created_at == now && t.updated_at == now,
        t.external_refs@.contains_key("subscription_id"@)
            && t.external_refs@["subscription_id"@] == sub.id,
{
}

/// A charge of a subscription is a completed transaction of the caller for the items, to the
/// buyer and the address, which refers to nothing and has no order yet.
pub proof fn law_charges_are_for_the_items(
    t: Transaction,
    input: IntentInput,
    buyer: Buyer,
    ship_to: Option<Address>,
    items: Seq<RequestItem>,
    currency: Seq<char>,
    now: Timestamp,
    id: String,
)
    requires
        charge_for(t, input, buyer, ship_to, items, currency, now, id),
    ensures
        t.id == id && t.state is Completed && t.agent_id == input.agent.raw && t.tenant_id
            == input.tenant.tenant_id,
        t.mandate_jti == input.envelope.mandate_jti && t.jurisdiction
            == input.envelope.context.jurisdiction,
        t.currency@ == currency && t.buyer == buyer && t.ship_to == ship_to && t.bill_to is None,
        t.order_id is None && t.quote_expires_at is None && t.created_at == now && t.updated_at
            == now,
        t.external_refs@.dom() =~= Set::empty(),
        priced_basket(t.line_items@, t.totals, items, currency),
{
}

/// The outcome of a pause or a cancellation shows the placeholder of the change and no order,
/// and keeps the placeholder.
pub proof fn law_changes_are_shown_with_their_placeholder(
    before: IcpService,
    after: IcpService,
    input: IntentInput,
    params: SubscriptionRefParams,
    now: Timestamp,
    transaction_id: String,
    o: Outcome,
    cancel: bool,
)
    requires
        !cancel ==> pause_done(before, after, input, params, now, transaction_id, Ok(o)),
        cancel ==> cancel_done(before, after, input, params, now, transaction_id, Ok(o)),
    ensures
        ({
            let t = o.transaction;
            let s = after.subscriptions@[params.subscription_id@];
            &&& t.state is Canceled && t.line_items@.len() == 0 && t.totals.total is None
            &&& t.buyer == s.buyer && t.currency == s.currency && t.mandate_jti == s.mandate_jti
            &&& t.agent_id == input.agent.raw && t.tenant_id == input.tenant.tenant_id
            &&& o.order is None && o.peer_quote is None
            &&& after.transactions@.contains_key(transaction_id@)
                && after.transactions@[transaction_id@].same_as(t)
            &&& forall|k: Seq<char>|
                k != transaction_id@ ==> (after.transactions@.contains_key(k)
                    <==> before.transactions@.contains_key(k)) && #[trigger] after.transactions@[k]
                    == before.transactions@[k]
        }),
{
}

} // verus!
