//! The intents that look and price: `search`, `describe` and `quote`.

use vstd::prelude::*;

use crate::arith::clamp64;
use crate::errors::{ApiError, ErrorView};
use crate::models::{Buyer, QuoteParams, Totals, Transaction, TransactionState};
use crate::pricing::{
    apply_discount_to_totals, basket_error, basket_price, flat_tax, held_discount,
    law_baskets_need_sound_positions, law_priced_basket_is_not_negative, price_request_items, prices, sums,
};
use crate::service::helpers::{
    blank_buyer, currency_of, fresh_transaction, gained, intent_currency, opened, outcome_of,
    transaction_only,
};
use crate::service::{IcpService, IntentInput, Outcome};
use crate::time::{representable, Span, Timestamp};

verus! {

/// How long a quote is open, in nanoseconds.
pub open spec fn quote_nanos() -> int {
    900_000_000_000
}

/// Why a basket cannot be quoted.
pub open spec fn quote_error(params: QuoteParams) -> Option<ErrorView> {
    if params.items@.len() == 0 {
        Some(ErrorView::InvalidRequest("quote.params.items must be non-empty"@))
    } else {
        basket_error(params.items@, "quote.params.items"@, 0)
    }
}

/// The discount that a quote grants: what the engine computed, when the caller
/// gave any code and there is an engine.
pub open spec fn granted_discount(params: QuoteParams, engine_discount: Option<i64>) -> int {
    match engine_discount {
        Some(d) => if params.discount_codes@.len() > 0 && d > 0 {
            d as int
        } else {
            0
        },
        None => 0,
    }
}

/// Whether these are the sums of a basket with this discount. Without one no
/// discount is shown.
pub open spec fn discounted_sums(
    totals: Totals,
    subtotal: int,
    discount: int,
    currency: Seq<char>,
) -> bool {
    if discount <= 0 {
        sums(totals, subtotal, currency)
    } else {
        let held = held_discount(discount, subtotal);
        let left = subtotal - held;
        &&& totals.subtotal matches Some(m) && m.is_plain(subtotal, currency)
        &&& totals.discount matches Some(m) && m.is_plain(held, currency)
        &&& totals.shipping is None
        &&& totals.tax matches Some(m) && m.is_plain(flat_tax(left), currency)
        &&& totals.total matches Some(m) && m.is_plain(clamp64(left + flat_tax(left)), currency)
    }
}

/// Whether the transaction is the quote of a basket: open for a quarter of an
/// hour, with every position priced.
pub open spec fn quoted(
    t: Transaction,
    input: IntentInput,
    params: QuoteParams,
    engine_discount: Option<i64>,
    now: Timestamp,
    fresh_id: String,
) -> bool {
    let currency = intent_currency(input);
    let items = params.items@;
    &&& t.id == (match input.envelope.transaction_id {
        Some(id) => id,
        None => fresh_id,
    })
    &&& t.state is Quoted
    &&& t.agent_id == input.agent.raw
    &&& t.tenant_id == input.tenant.tenant_id
    &&& t.mandate_jti == input.envelope.mandate_jti
    &&& t.currency@ == currency
    &&& t.jurisdiction == input.envelope.context.jurisdiction
    &&& match params.buyer {
        Some(b) => t.buyer == b,
        None => blank_buyer(t.buyer),
    }
    &&& t.ship_to == params.ship_to
    &&& t.bill_to is None
    &&& t.line_items@.len() == items.len()
    &&& forall|i: int|
        0 <= i < items.len() ==> prices(#[trigger] t.line_items@[i], items[i], i, currency)
    &&& discounted_sums(
        t.totals,
        basket_price(items, items.len() as int),
        granted_discount(params, engine_discount),
        currency,
    )
    &&& t.order_id is None
    &&& t.quote_expires_at matches Some(at) && at@ == now@ + quote_nanos()
    &&& t.created_at == now
    &&& t.updated_at == now
    &&& t.external_refs@ == Map::<Seq<char>, String>::empty()
}

/// What a search or a description does: it leaves an empty draft.
pub open spec fn draft_opened(
    before: IcpService,
    after: IcpService,
    input: IntentInput,
    now: Timestamp,
    fresh_id: String,
    o: Outcome,
) -> bool {
    &&& after.wf()
    &&& after == (IcpService { transactions: after.transactions, ..before })
    &&& opened(o.transaction, input, TransactionState::Draft, now, fresh_id)
    &&& gained(before.transactions@, after.transactions@, o.transaction)
    &&& transaction_only(o)
}

/// What quoting a basket does.
pub open spec fn quote_done(
    before: IcpService,
    after: IcpService,
    input: IntentInput,
    params: QuoteParams,
    engine_discount: Option<i64>,
    now: Timestamp,
    fresh_id: String,
    r: Result<Outcome, ApiError>,
) -> bool {
    &&& after.wf()
    &&& after == (IcpService { transactions: after.transactions, ..before })
    &&& match r {
        Ok(o) => {
            &&& quote_error(params) is None
            &&& quoted(o.transaction, input, params, engine_discount, now, fresh_id)
            &&& gained(before.transactions@, after.transactions@, o.transaction)
            &&& transaction_only(o)
        },
        Err(e) => {
            &&& quote_error(params) == Some(e@)
            &&& after.transactions@ == before.transactions@
        },
    }
}

impl IcpService {
    /// Answers a search with an empty draft.
    pub fn do_search(&mut self, input: &IntentInput, now: Timestamp, fresh_id: String) -> (o: Outcome)
        requires
            old(self).wf(),
        ensures
            draft_opened(*old(self), *final(self), *input, now, fresh_id, o),
    {
        let t = fresh_transaction(input, TransactionState::Draft, now, fresh_id);
        outcome_of(self.keep_transaction(t))
    }

    /// Answers a description with an empty draft.
    pub fn do_describe(&mut self, input: &IntentInput, now: Timestamp, fresh_id: String) -> (o:
        Outcome)
        requires
            old(self).wf(),
        ensures
            draft_opened(*old(self), *final(self), *input, now, fresh_id, o),
    {
        let t = fresh_transaction(input, TransactionState::Draft, now, fresh_id);
        outcome_of(self.keep_transaction(t))
    }

    /// Prices a basket and opens a quote for it. `engine_discount` is what the
    /// engine computed for the codes, when there is an engine.
    pub fn do_quote(
        &mut self,
        input: &IntentInput,
        params: QuoteParams,
        engine_discount: Option<i64>,
        now: Timestamp,
        fresh_id: String,
    ) -> (r: Result<Outcome, ApiError>)
        requires
            old(self).wf(),
            representable(now@ + quote_nanos()),
        ensures
            quote_done(*old(self), *final(self), *input, params, engine_discount, now, fresh_id, r),
    {
        if params.items.len() == 0 {
            return Err(
                ApiError::InvalidRequest(String::from_str("quote.params.items must be non-empty")),
            );
        }
        let currency = currency_of(input);
        let (lines, mut totals) = match price_request_items(
            &params.items,
            currency.as_str(),
            "quote.params.items",
        ) {
            Ok(p) => p,
            Err(e) => {
                return Err(e);
            },
        };
        proof {
            law_priced_basket_is_not_negative(
                params.items@,
                "quote.params.items"@,
                params.items@.len() as int,
            );
        }
        if params.discount_codes.len() > 0 {
            match engine_discount {
                Some(d) => {
                    if d > 0 {
                        apply_discount_to_totals(&mut totals, d, currency.as_str());
                    }
                },
                None => {},
            }
        }
        let mut t = fresh_transaction(input, TransactionState::Quoted, now, fresh_id);
        t.buyer = match params.buyer {
            Some(b) => b,
            None => Buyer::default(),
        };
        t.ship_to = params.ship_to;
        t.line_items = lines;
        t.totals = totals;
        t.currency = currency;
        t.quote_expires_at = Some(now.plus(Span::seconds(900)));
        Ok(outcome_of(self.keep_transaction(t)))
    }
}

// ---------------------------------------------------------------------------
// Laws
// ---------------------------------------------------------------------------

/// A quote prices the basket that was asked for and is open for a quarter of an hour. The
/// discount of the engine counts only where codes were given; it is at most the subtotal,
/// and the tax is on what it leaves.
pub proof fn law_quotes_price_the_basket(
    before: IcpService,
    after: IcpService,
    input: IntentInput,
    params: QuoteParams,
    engine_discount: Option<i64>,
    now: Timestamp,
    fresh_id: String,
    o: Outcome,
)
    requires
        quote_done(before, after, input, params, engine_discount, now, fresh_id, Ok(o)),
    ensures
        ({
            let id = match input.envelope.transaction_id {
                Some(id) => id@,
                None => fresh_id@,
            };
            let t = after.transactions@[id];
            let items = params.items@;
            let subtotal = basket_price(items, items.len() as int);
            let discount = match engine_discount {
                Some(d) => if params.discount_codes@.len() == 0 || d <= 0 {
                    0
                } else if d <= subtotal {
                    d as int
                } else {
                    subtotal
                },
                None => 0,
            };
            let tax = t.totals.tax->0.amount_minor as int;
            let total = t.totals.total->0.amount_minor as int;
            &&& after.transactions@.contains_key(id) && o.transaction.same_as(t)
            &&& t.state is Quoted && t.id@ == id
            &&& t.quote_expires_at matches Some(at) && at@ == now@ + 15 * 60 * 1_000_000_000
            &&& t.agent_id == input.agent.raw && t.tenant_id == input.tenant.tenant_id
            &&& t.mandate_jti == input.envelope.mandate_jti
            &&& t.jurisdiction == input.envelope.context.jurisdiction
            &&& input.envelope.context.currency matches Some(c) ==> t.currency@ == c@
            &&& input.envelope.context.currency is None ==> t.currency@ == "USD"@
            &&& params.buyer matches Some(b) ==> t.buyer == b
            &&& params.buyer is None ==> t.buyer.email is None && t.buyer.first_name is None
            &&& t.ship_to == params.ship_to && t.bill_to is None && t.order_id is None
            &&& t.line_items@.len() == items.len()
            &&& forall|i: int|
                0 <= i < items.len() ==> {
                    let line = #[trigger] t.line_items@[i];
                    &&& line.sku == items[i].sku && line.quantity == items[i].quantity
                    &&& items[i].unit_price_hint matches Some(m) ==> line.unit_price.amount_minor
                        == m.amount_minor
                    &&& items[i].unit_price_hint is None ==> line.unit_price.amount_minor == 1_000
                }
            &&& t.totals.subtotal matches Some(m) && m.amount_minor == subtotal && m.currency@
                == t.currency@
            &&& discount > 0 ==> (t.totals.discount matches Some(m) && m.amount_minor == discount)
            &&& t.totals.tax is Some && 0 <= (subtotal - discount) * 875 - tax * 10_000 < 10_000
            &&& t.totals.total is Some && (subtotal <= 8_000_000_000_000_000_000 ==> total
                == subtotal - discount + tax)
            &&& o.order is None && o.subscription is None && o.peer_quote is None
            &&& t.created_at == now && t.updated_at == now
            &&& forall|k: Seq<char>|
                k != id ==> (after.transactions@.contains_key(k)
                    <==> before.transactions@.contains_key(k)) && #[trigger] after.transactions@[k]
                    == before.transactions@[k]
            &&& after.mandates == before.mandates
        }),
{
    let items = params.items@;
    law_priced_basket_is_not_negative(items, "quote.params.items"@, items.len() as int);
    assert forall|i: int| 0 <= i < items.len() implies {
        let line = #[trigger] o.transaction.line_items@[i];
        &&& line.sku == items[i].sku && line.quantity == items[i].quantity
        &&& items[i].unit_price_hint matches Some(m) ==> line.unit_price.amount_minor
            == m.amount_minor
        &&& items[i].unit_price_hint is None ==> line.unit_price.amount_minor == 1_000
    } by {
        assert(prices(o.transaction.line_items@[i], items[i], i, intent_currency(input)));
    }
}

/// A basket is quoted exactly when it holds something, every quantity is positive and no
/// hinted price is negative. A refused one changes nothing.
pub proof fn law_sound_baskets_are_quoted(
    before: IcpService,
    after: IcpService,
    input: IntentInput,
    params: QuoteParams,
    engine_discount: Option<i64>,
    now: Timestamp,
    fresh_id: String,
    r: Result<Outcome, ApiError>,
)
    requires
        quote_done(before, after, input, params, engine_discount, now, fresh_id, r),
    ensures
        r is Err <==> params.items@.len() == 0 || exists|i: int|
            0 <= i < params.items@.len() && (#[trigger] params.items@[i].quantity <= 0 || (
            params.items@[i].unit_price_hint matches Some(m) && m.amount_minor < 0)),
        r matches Err(e) ==> e@ is InvalidRequest && after.transactions@ == before.transactions@,
{
    law_baskets_need_sound_positions(params.items@, "quote.params.items"@);
}

/// A search or a description leaves an empty draft of its caller, under the id that it
/// names or a fresh one, and nothing else.
pub proof fn law_searches_leave_an_empty_draft(
    before: IcpService,
    after: IcpService,
    input: IntentInput,
    now: Timestamp,
    fresh_id: String,
    o: Outcome,
)
    requires
        draft_opened(before, after, input, now, fresh_id, o),
    ensures
        ({
            let id = match input.envelope.transaction_id {
                Some(id) => id@,
                None => fresh_id@,
            };
            let t = after.transactions@[id];
            &&& after.transactions@.contains_key(id) && o.transaction.same_as(t)
            &&& t.state is Draft && t.agent_id == input.agent.raw && t.tenant_id
                == input.tenant.tenant_id
            &&& t.line_items@.len() == 0 && t.totals.total is None && t.order_id is None
            &&& t.quote_expires_at is None && t.external_refs@.dom() =~= Set::empty()
            &&& o.order is None && o.subscription is None && o.peer_quote is None
            &&& t.created_at == now && t.updated_at == now
            &&& forall|k: Seq<char>|
                k != id ==> (after.transactions@.contains_key(k)
                    <==> before.transactions@.contains_key(k)) && #[trigger] after.transactions@[k]
                    == before.transactions@[k]
            &&& after.mandates == before.mandates && after.subscriptions == before.subscriptions
        }),
{
}

} // verus!
