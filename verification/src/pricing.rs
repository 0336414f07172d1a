//! Prices, taxes, discounts, payment instruments and billing periods.

use vstd::prelude::*;

use crate::arith::{clamp64, sat_plus, sat_times};
use crate::errors::{ApiError, ErrorView};
use crate::json::{Json, JsonView};
use crate::models::{
    BillingCadence, IntentEnvelope, LineItem, Money, PaymentInstrument, RequestItem, Totals,
};
use crate::numerals::{nat_text, nat_to_padded, nat_to_text, padded_text};
use crate::text::{
    is_blank, is_white, join2, join4, law_trimming_leaves_what_is_filled, opt_text, opt_view, str_eq,
    trimmed,
};
use crate::time::{
    add_months, day_nanos, instant_on, is_date, last_year, law_months_keep_day_and_time, month_length,
    months_later, representable, Span, Timestamp,
};

verus! {

// ---------------------------------------------------------------------------
// Baskets
// ---------------------------------------------------------------------------

/// The price of one unit: the hint of the caller, or ten units of the currency
/// with two decimals.
pub open spec fn unit_price(item: RequestItem) -> int {
    match item.unit_price_hint {
        Some(m) => m.amount_minor as int,
        None => 1_000,
    }
}

/// The price of one position.
pub open spec fn position_price(item: RequestItem) -> int {
    clamp64(unit_price(item) * item.quantity)
}

/// The sum of the first `n` positions.
pub open spec fn basket_price(items: Seq<RequestItem>, n: int) -> int
    decreases n,
{
    if n <= 0 {
        0
    } else {
        clamp64(basket_price(items, n - 1) + position_price(items[n - 1]))
    }
}

/// What is wrong with the position at `i`.
pub open spec fn position_error(items: Seq<RequestItem>, prefix: Seq<char>, i: int) -> Option<
    ErrorView,
> {
    if items[i].quantity <= 0 {
        Some(
            ErrorView::InvalidRequest(
                prefix + "["@ + nat_text(i as nat) + "].quantity must be positive"@,
            ),
        )
    } else if unit_price(items[i]) < 0 {
        Some(
            ErrorView::InvalidRequest(
                prefix + "["@ + nat_text(i as nat)
                    + "].unit_price_hint.amount_minor must be non-negative"@,
            ),
        )
    } else {
        None
    }
}

/// The first thing that is wrong with a basket, from position `i` on.
pub open spec fn basket_error(items: Seq<RequestItem>, prefix: Seq<char>, i: int) -> Option<
    ErrorView,
>
    decreases items.len() - i,
{
    if i < 0 || i >= items.len() {
        None
    } else if position_error(items, prefix, i) is Some {
        position_error(items, prefix, i)
    } else {
        basket_error(items, prefix, i + 1)
    }
}

/// Whether the line is the priced form of the item at position `i`.
pub open spec fn prices(line: LineItem, item: RequestItem, i: int, currency: Seq<char>) -> bool {
    &&& line.id@ == "li_"@ + padded_text(i as nat, 6)
    &&& line.sku == item.sku
    &&& line.name == item.sku
    &&& line.quantity == item.quantity
    &&& line.unit_price.is_plain(unit_price(item), currency)
    &&& line.subtotal.is_plain(position_price(item), currency)
    &&& line.tax is None
    &&& line.total.is_plain(position_price(item), currency)
}

/// A flat tax of 8.75 percent, rounded toward zero.
pub open spec fn flat_tax(subtotal: int) -> int {
    if subtotal >= 0 {
        subtotal * 875 / 10_000
    } else {
        -(-subtotal * 875 / 10_000)
    }
}

/// Whether these are the sums of a basket without a discount.
pub open spec fn sums(totals: Totals, subtotal: int, currency: Seq<char>) -> bool {
    &&& totals.subtotal matches Some(m) && m.is_plain(subtotal, currency)
    &&& totals.discount is None
    &&& totals.shipping is None
    &&& totals.tax matches Some(m) && m.is_plain(flat_tax(subtotal), currency)
    &&& totals.total matches Some(m) && m.is_plain(
        clamp64(subtotal + flat_tax(subtotal)),
        currency,
    )
}

/// Whether these are the priced lines and the sums of a basket.
pub open spec fn priced_basket(
    lines: Seq<LineItem>,
    totals: Totals,
    items: Seq<RequestItem>,
    currency: Seq<char>,
) -> bool {
    &&& lines.len() == items.len()
    &&& forall|i: int|
        0 <= i < items.len() ==> prices(#[trigger] lines[i], items[i], i, currency)
    &&& sums(totals, basket_price(items, items.len() as int), currency)
}

/// A flat tax of 8.75 percent in minor units, rounded toward zero.
pub fn flat_tax_minor(subtotal_minor: i64) -> (r: i64)
    ensures
        r == flat_tax(subtotal_minor as int),
{
    if subtotal_minor >= 0 {
        let wide: u128 = subtotal_minor as u128 * 875 / 10_000;
        wide as i64
    } else {
        let magnitude: i128 = -(subtotal_minor as i128);
        let wide: u128 = magnitude as u128 * 875 / 10_000;
        -(wide as i64)
    }
}

/// Prices a basket: the hint of the caller or a default per unit, and a flat tax
/// on the sum. Quantities must be positive and hints must not be negative.
pub fn price_request_items(items: &Vec<RequestItem>, currency: &str, field_prefix: &str) -> (r:
    Result<(Vec<LineItem>, Totals), ApiError>)
    ensures
        match r {
            Ok((lines, totals)) => basket_error(items@, field_prefix@, 0) is None && priced_basket(
                lines@,
                totals,
                items@,
                currency@,
            ),
            Err(e) => basket_error(items@, field_prefix@, 0) == Some(e@),
        },
{
    let mut line_items: Vec<LineItem> = Vec::new();
    let mut subtotal: i64 = 0;
    let mut idx: usize = 0;
    while idx < items.len()
        invariant
            idx <= items@.len(),
            line_items@.len() == idx,
            subtotal == basket_price(items@, idx as int),
            basket_error(items@, field_prefix@, 0) == basket_error(
                items@,
                field_prefix@,
                idx as int,
            ),
            forall|i: int|
                0 <= i < idx ==> prices(#[trigger] line_items@[i], items@[i], i, currency@),
        decreases items@.len() - idx,
    {
        let req = &items[idx];
        if req.quantity <= 0 {
            let n = nat_to_text(idx as u128);
            return Err(
                ApiError::InvalidRequest(
                    join4(field_prefix, "[", n.as_str(), "].quantity must be positive"),
                ),
            );
        }
        let unit: i64 = match &req.unit_price_hint {
            Some(m) => m.amount_minor,
            None => 1_000,
        };
        if unit < 0 {
            let n = nat_to_text(idx as u128);
            return Err(
                ApiError::InvalidRequest(
                    join4(
                        field_prefix,
                        "[",
                        n.as_str(),
                        "].unit_price_hint.amount_minor must be non-negative",
                    ),
                ),
            );
        }
        let line_subtotal: i64 = sat_times(unit, req.quantity);
        subtotal = sat_plus(subtotal, line_subtotal);
        let n = nat_to_padded(idx as u128, 6);
        line_items.push(
            LineItem {
                id: join2("li_", n.as_str()),
                sku: req.sku.clone(),
                name: req.sku.clone(),
                quantity: req.quantity,
                unit_price: Money::new(unit, currency),
                subtotal: Money::new(line_subtotal, currency),
                tax: None,
                total: Money::new(line_subtotal, currency),
            },
        );
        idx += 1;
    }
    let tax: i64 = flat_tax_minor(subtotal);
    let total: i64 = sat_plus(subtotal, tax);
    let totals = Totals {
        subtotal: Some(Money::new(subtotal, currency)),
        discount: None,
        shipping: None,
        tax: Some(Money::new(tax, currency)),
        total: Some(Money::new(total, currency)),
    };
    Ok((line_items, totals))
}

/// The subtotal of the sums; nothing counts as zero.
pub open spec fn subtotal_of(totals: Totals) -> int {
    match totals.subtotal {
        Some(m) => m.amount_minor as int,
        None => 0,
    }
}

/// The total of the sums; nothing counts as zero.
pub open spec fn total_of(totals: Totals) -> int {
    match totals.total {
        Some(m) => m.amount_minor as int,
        None => 0,
    }
}

/// A discount, held between nothing and the whole subtotal.
pub open spec fn held_discount(discount: int, subtotal: int) -> int {
    if discount < 0 {
        0
    } else if discount > subtotal {
        subtotal
    } else {
        discount
    }
}

/// Takes a discount off the sums of a basket: the tax is computed anew on what is
/// left, and the discount is never more than the subtotal.
pub fn apply_discount_to_totals(totals: &mut Totals, discount_minor: i64, currency: &str)
    requires
        subtotal_of(*old(totals)) >= 0,
    ensures
        ({
            let subtotal = subtotal_of(*old(totals));
            let discount = held_discount(discount_minor as int, subtotal);
            let left = subtotal - discount;
            &&& final(totals).subtotal == old(totals).subtotal
            &&& final(totals).shipping == old(totals).shipping
            &&& final(totals).discount matches Some(m) && m.is_plain(discount, currency@)
            &&& final(totals).tax matches Some(m) && m.is_plain(flat_tax(left), currency@)
            &&& final(totals).total matches Some(m) && m.is_plain(
                clamp64(left + flat_tax(left)),
                currency@,
            )
        }),
{
    let subtotal: i64 = match &totals.subtotal {
        Some(m) => m.amount_minor,
        None => 0,
    };
    let discount: i64 = if discount_minor < 0 {
        0
    } else if discount_minor > subtotal {
        subtotal
    } else {
        discount_minor
    };
    let discounted: i64 = subtotal - discount;
    let tax: i64 = flat_tax_minor(discounted);
    totals.discount = Some(Money::new(discount, currency));
    totals.tax = Some(Money::new(tax, currency));
    totals.total = Some(Money::new(sat_plus(discounted, tax), currency));
}

/// The total of the sums; nothing counts as zero.
pub fn total_amount_minor(totals: &Totals) -> (r: i64)
    ensures
        r == total_of(*totals),
{
    match &totals.total {
        Some(m) => m.amount_minor,
        None => 0,
    }
}

// ---------------------------------------------------------------------------
// Estimates
// ---------------------------------------------------------------------------

/// A whole number, or `other` when the document holds none.
pub open spec fn integer_or(v: Option<JsonView>, other: int) -> int {
    match v {
        Some(d) => match d.integer() {
            Some(n) => n,
            None => other,
        },
        None => other,
    }
}

/// What one position of the raw parameters would cost.
pub open spec fn estimated_position(item: JsonView) -> int {
    let quantity = integer_or(item.member("quantity"@), 0);
    let unit = match item.member("unit_price_hint"@) {
        Some(hint) => integer_or(hint.member("amount_minor"@), 1_000),
        None => 1_000,
    };
    clamp64(quantity * unit)
}

/// What the first `n` positions would cost.
pub open spec fn estimated_sum(items: Seq<JsonView>, n: int) -> int
    decreases n,
{
    if n <= 0 {
        0
    } else {
        clamp64(estimated_sum(items, n - 1) + estimated_position(items[n - 1]))
    }
}

/// What an intent would put on the budget of a mandate, as far as its raw
/// parameters show.
pub open spec fn estimated_amount(params: JsonView) -> int {
    match params.member("items"@) {
        Some(JsonView::Array(items)) => estimated_sum(items, items.len() as int),
        _ => 0,
    }
}

fn read_integer(v: Option<&Json>, other: i64) -> (r: i64)
    ensures
        r == integer_or(
            match v {
                Some(d) => Some(d@),
                None => None,
            },
            other as int,
        ),
{
    match v {
        Some(d) => match d.as_i64() {
            Some(n) => n,
            None => other,
        },
        None => other,
    }
}

/// What an intent would put on the budget of a mandate: the sum over inline
/// items, and nothing when there are none. Used before the intent is executed.
pub fn estimate_intent_amount_minor(envelope: &IntentEnvelope) -> (r: i64)
    ensures
        r == estimated_amount(envelope.params@),
{
    let items = match envelope.params.get("items") {
        Some(v) => match v.as_array() {
            Some(items) => items,
            None => {
                return 0;
            },
        },
        None => {
            return 0;
        },
    };
    let ghost all = envelope.params@.member("items"@)->0->Array_0;
    let mut total: i64 = 0;
    let mut i: usize = 0;
    while i < items.len()
        invariant
            i <= items@.len() == all.len(),
            forall|j: int| 0 <= j < all.len() ==> #[trigger] all[j] == items@[j]@,
            total == estimated_sum(all, i as int),
        decreases items@.len() - i,
    {
        let item = &items[i];
        assert(all[i as int] == item@);
        let quantity: i64 = read_integer(item.get("quantity"), 0);
        let unit: i64 = match item.get("unit_price_hint") {
            Some(hint) => read_integer(hint.get("amount_minor"), 1_000),
            None => 1_000,
        };
        total = sat_plus(total, sat_times(quantity, unit));
        i += 1;
    }
    total
}

// ---------------------------------------------------------------------------
// Payment instruments
// ---------------------------------------------------------------------------

/// The error for a field that is missing or blank.
pub open spec fn blank_error(value: Option<Seq<char>>, field: Seq<char>) -> Option<ErrorView> {
    if value matches Some(v) && trimmed(v).len() > 0 {
        None
    } else {
        Some(ErrorView::InvalidRequest(field + " must be non-empty"@))
    }
}

/// The first of two errors.
pub open spec fn first_error(a: Option<ErrorView>, b: Option<ErrorView>) -> Option<ErrorView> {
    if a is Some {
        a
    } else {
        b
    }
}

/// What is missing in an instrument.
pub open spec fn instrument_error(payment: PaymentInstrument) -> Option<ErrorView> {
    match payment {
        PaymentInstrument::Card { token, .. } => blank_error(
            opt_text(token),
            "payment.card.token"@,
        ),
        PaymentInstrument::DelegatedVault { token, provider } => first_error(
            blank_error(Some(token@), "payment.delegated_vault.token"@),
            if provider is Some {
                blank_error(opt_text(provider), "payment.delegated_vault.provider"@)
            } else {
                None
            },
        ),
        PaymentInstrument::Stablecoin { asset, chain, from, .. } => first_error(
            blank_error(Some(asset@), "payment.stablecoin.asset"@),
            first_error(
                blank_error(Some(chain@), "payment.stablecoin.chain"@),
                blank_error(Some(from@), "payment.stablecoin.from"@),
            ),
        ),
        PaymentInstrument::A2A { peer_agent_id, .. } => blank_error(
            Some(peer_agent_id@),
            "payment.a2a.peer_agent_id"@,
        ),
        PaymentInstrument::ExternalAuthorization { provider, authorization_id, .. } => first_error(
            blank_error(Some(provider@), "payment.external_authorization.provider"@),
            blank_error(
                Some(authorization_id@),
                "payment.external_authorization.authorization_id"@,
            ),
        ),
    }
}

/// Why an instrument cannot be used under an execution mode.
pub open spec fn payment_error(payment: PaymentInstrument, mode: Seq<char>) -> Option<ErrorView> {
    first_error(
        instrument_error(payment),
        if mode == "external_required"@ && !(payment is ExternalAuthorization) {
            Some(
                ErrorView::PreconditionFailed(
                    "external payment authorization required by this handler"@,
                ),
            )
        } else {
            None
        },
    )
}

/// Refuses a field that is missing or blank.
pub fn require_non_empty(value: Option<&str>, field: &str) -> (r: Result<(), ApiError>)
    ensures
        match r {
            Ok(()) => blank_error(opt_view(value), field@) is None,
            Err(e) => blank_error(opt_view(value), field@) == Some(e@),
        },
{
    let filled = match value {
        Some(v) => !is_blank(v),
        None => false,
    };
    if filled {
        Ok(())
    } else {
        Err(ApiError::InvalidRequest(join2(field, " must be non-empty")))
    }
}

fn check_instrument(payment: &PaymentInstrument) -> (r: Result<(), ApiError>)
    ensures
        match r {
            Ok(()) => instrument_error(*payment) is None,
            Err(e) => instrument_error(*payment) == Some(e@),
        },
{
    match payment {
        PaymentInstrument::Card { token, .. } => {
            let t = match token {
                Some(t) => Some(t.as_str()),
                None => None,
            };
            require_non_empty(t, "payment.card.token")
        },
        PaymentInstrument::DelegatedVault { token, provider } => {
            match require_non_empty(Some(token.as_str()), "payment.delegated_vault.token") {
                Ok(()) => {},
                Err(e) => {
                    return Err(e);
                },
            }
            match provider {
                Some(p) => require_non_empty(
                    Some(p.as_str()),
                    "payment.delegated_vault.provider",
                ),
                None => Ok(()),
            }
        },
        PaymentInstrument::Stablecoin { asset, chain, from, .. } => {
            match require_non_empty(Some(asset.as_str()), "payment.stablecoin.asset") {
                Ok(()) => {},
                Err(e) => {
                    return Err(e);
                },
            }
            match require_non_empty(Some(chain.as_str()), "payment.stablecoin.chain") {
                Ok(()) => {},
                Err(e) => {
                    return Err(e);
                },
            }
            require_non_empty(Some(from.as_str()), "payment.stablecoin.from")
        },
        PaymentInstrument::A2A { peer_agent_id, .. } => require_non_empty(
            Some(peer_agent_id.as_str()),
            "payment.a2a.peer_agent_id",
        ),
        PaymentInstrument::ExternalAuthorization { provider, authorization_id, .. } => {
            match require_non_empty(
                Some(provider.as_str()),
                "payment.external_authorization.provider",
            ) {
                Ok(()) => {},
                Err(e) => {
                    return Err(e);
                },
            }
            require_non_empty(
                Some(authorization_id.as_str()),
                "payment.external_authorization.authorization_id",
            )
        },
    }
}

/// Checks that an instrument is complete, and that it is an external
/// authorization where the execution mode demands one.
pub fn validate_payment_instrument(payment: &PaymentInstrument, execution_mode: &str) -> (r: Result<
    (),
    ApiError,
>)
    ensures
        match r {
            Ok(()) => payment_error(*payment, execution_mode@) is None,
            Err(e) => payment_error(*payment, execution_mode@) == Some(e@),
        },
{
    match check_instrument(payment) {
        Ok(()) => {},
        Err(e) => {
            return Err(e);
        },
    }
    let external = match payment {
        PaymentInstrument::ExternalAuthorization { .. } => true,
        _ => false,
    };
    if str_eq(execution_mode, "external_required") && !external {
        return Err(
            ApiError::PreconditionFailed(
                String::from_str("external payment authorization required by this handler"),
            ),
        );
    }
    Ok(())
}

// ---------------------------------------------------------------------------
// Billing periods
// ---------------------------------------------------------------------------

/// The days that stand in for a period when the calendar gives none.
pub open spec fn cadence_days(cadence: BillingCadence) -> int {
    match cadence {
        BillingCadence::Weekly => 7,
        BillingCadence::Monthly => 30,
        BillingCadence::Annual => 365,
    }
}

/// The end of the period that starts at `start`.
pub open spec fn period_end(start: int, cadence: BillingCadence) -> int {
    let plain = start + cadence_days(cadence) * day_nanos();
    match cadence {
        BillingCadence::Weekly => plain,
        BillingCadence::Monthly => match months_later(start, 1) {
            Some(t) => t,
            None => plain,
        },
        BillingCadence::Annual => match months_later(start, 12) {
            Some(t) => t,
            None => plain,
        },
    }
}

/// Whether a period can start here without running off the calendar.
pub open spec fn period_can_start(start: int, cadence: BillingCadence) -> bool {
    representable(start + cadence_days(cadence) * day_nanos())
}

/// The end of a billing period. Months and years follow the calendar, with the
/// day held to the end of the month.
pub fn period_advance(start: Timestamp, cadence: BillingCadence) -> (r: Timestamp)
    requires
        period_can_start(start@, cadence),
    ensures
        r@ == period_end(start@, cadence),
        r@ >= start@ + 7 * day_nanos(),
        cadence is Weekly ==> r@ == start@ + 7 * day_nanos(),
        cadence is Monthly ==> start@ + 28 * day_nanos() <= r@ <= start@ + 31 * day_nanos(),
        cadence is Annual ==> start@ + 365 * day_nanos() <= r@ <= start@ + 366 * day_nanos(),
{
    match cadence {
        BillingCadence::Weekly => start.plus(Span::days(7)),
        BillingCadence::Monthly => match add_months(start, 1) {
            Some(t) => t,
            None => start.plus(Span::days(30)),
        },
        BillingCadence::Annual => match add_months(start, 12) {
            Some(t) => t,
            None => start.plus(Span::days(365)),
        },
    }
}

/// Whether a period can start here without running off the calendar.
pub fn period_is_representable(start: Timestamp, cadence: BillingCadence) -> (r: bool)
    ensures
        r == period_can_start(start@, cadence),
{
    let days: i64 = match cadence {
        BillingCadence::Weekly => 7,
        BillingCadence::Monthly => 30,
        BillingCadence::Annual => 365,
    };
    start.checked_add(Span::days(days)).is_some()
}

// ---------------------------------------------------------------------------
// Laws
// ---------------------------------------------------------------------------

/// The tax is never negative and never more than what it is levied on.
pub proof fn law_tax_is_a_part_of_the_subtotal(subtotal: int)
    requires
        subtotal >= 0,
    ensures
        0 <= flat_tax(subtotal) <= subtotal,
{
}

/// A basket that can be priced never has a negative subtotal, so a discount can
/// always be taken off it.
pub proof fn law_priced_basket_is_not_negative(items: Seq<RequestItem>, prefix: Seq<char>, n: int)
    requires
        0 <= n <= items.len(),
        basket_error(items, prefix, 0) is None,
    ensures
        0 <= basket_price(items, n) <= i64::MAX,
    decreases n,
{
    if n > 0 {
        law_priced_basket_is_not_negative(items, prefix, n - 1);
        lemma_no_error_at(items, prefix, 0, n - 1);
        let u = unit_price(items[n - 1]);
        let q = items[n - 1].quantity as int;
        assert(u * q >= 0) by (nonlinear_arith)
            requires
                u >= 0,
                q >= 0,
        ;
    }
}

proof fn lemma_no_error_at(items: Seq<RequestItem>, prefix: Seq<char>, from: int, i: int)
    requires
        0 <= from <= i < items.len(),
        basket_error(items, prefix, from) is None,
    ensures
        position_error(items, prefix, i) is None,
    decreases i - from,
{
    if from < i {
        lemma_no_error_at(items, prefix, from + 1, i);
    }
}

/// After any discount the total is not negative, and not more than it was
/// without one.
pub proof fn law_discount_never_makes_total_negative(subtotal: int, discount: int)
    requires
        0 <= subtotal <= i64::MAX,
    ensures
        ({
            let left = subtotal - held_discount(discount, subtotal);
            0 <= clamp64(left + flat_tax(left)) <= clamp64(subtotal + flat_tax(subtotal))
        }),
{
    let left = subtotal - held_discount(discount, subtotal);
    assert(left * 875 / 10_000 <= subtotal * 875 / 10_000) by (nonlinear_arith)
        requires
            0 <= left <= subtotal,
    ;
}

/// A monthly period that starts on a day of a month ends at the same time of day on that
/// day of the next month, or on its last day where it has no such day.
pub proof fn law_monthly_periods_follow_the_calendar(
    year: int,
    month: int,
    day: int,
    time_of_day: int,
)
    requires
        is_date(year, month, day),
        0 <= time_of_day < day_nanos(),
        year < last_year(),
    ensures
        month < 12 && day <= month_length(year, month + 1) ==> period_end(
            instant_on(year, month, day, time_of_day),
            BillingCadence::Monthly,
        ) == instant_on(year, month + 1, day, time_of_day),
        month < 12 && day > month_length(year, month + 1) ==> period_end(
            instant_on(year, month, day, time_of_day),
            BillingCadence::Monthly,
        ) == instant_on(year, month + 1, month_length(year, month + 1), time_of_day),
        month == 12 ==> period_end(
            instant_on(year, month, day, time_of_day),
            BillingCadence::Monthly,
        ) == instant_on(year + 1, 1, day, time_of_day),
{
    if month < 12 {
        law_months_keep_day_and_time(year, month, day, time_of_day, 1, year, month + 1);
    } else {
        law_months_keep_day_and_time(year, month, day, time_of_day, 1, year + 1, 1);
    }
}

/// An annual period ends at the same time of day on the same date of the next year, one
/// that starts on February 29th on February 28th where the next year has no such day.
pub proof fn law_annual_periods_follow_the_calendar(
    year: int,
    month: int,
    day: int,
    time_of_day: int,
)
    requires
        is_date(year, month, day),
        0 <= time_of_day < day_nanos(),
        year < last_year(),
    ensures
        !(month == 2 && day == 29) ==> period_end(
            instant_on(year, month, day, time_of_day),
            BillingCadence::Annual,
        ) == instant_on(year + 1, month, day, time_of_day),
        month == 2 && day == 29 ==> period_end(
            instant_on(year, month, day, time_of_day),
            BillingCadence::Annual,
        ) == instant_on(year + 1, 2, 28, time_of_day),
{
    law_months_keep_day_and_time(year, month, day, time_of_day, 12, year + 1, month);
}

/// A weekly period lasts seven days, whatever the calendar.
pub proof fn law_weekly_periods_last_seven_days(start: int)
    ensures
        period_end(start, BillingCadence::Weekly) - start == 7 * 24 * 3_600 * 1_000_000_000,
{
}

/// The end of the last of `n` periods in a row.
pub open spec fn periods_end(start: int, cadence: BillingCadence, n: nat) -> int
    decreases n,
{
    if n == 0 {
        start
    } else {
        period_end(periods_end(start, cadence, (n - 1) as nat), cadence)
    }
}

proof fn lemma_months_in_a_row(year: int, month: int, day: int, time_of_day: int, n: nat)
    requires
        is_date(year, month, day),
        day <= 28,
        0 <= time_of_day < day_nanos(),
        year < last_year(),
        n <= 12,
    ensures
        periods_end(instant_on(year, month, day, time_of_day), BillingCadence::Monthly, n)
            == instant_on(
            if month + n <= 12 {
                year
            } else {
                year + 1
            },
            if month + n <= 12 {
                month + n
            } else {
                month + n - 12
            },
            day,
            time_of_day,
        ),
    decreases n,
{
    if n > 0 {
        lemma_months_in_a_row(year, month, day, time_of_day, (n - 1) as nat);
        let before = month + n - 1;
        let (y, m) = if before <= 12 {
            (year, before)
        } else {
            (year + 1, before - 12)
        };
        if m < 12 {
            law_months_keep_day_and_time(y, m, day, time_of_day, 1, y, m + 1);
        } else {
            law_months_keep_day_and_time(y, m, day, time_of_day, 1, y + 1, 1);
        }
    }
}

/// Twelve monthly periods in a row from a day up to the 28th end where one annual period
/// from the same start ends.
pub proof fn law_twelve_months_are_a_year(year: int, month: int, day: int, time_of_day: int)
    requires
        is_date(year, month, day),
        day <= 28,
        0 <= time_of_day < day_nanos(),
        year < last_year(),
    ensures
        periods_end(instant_on(year, month, day, time_of_day), BillingCadence::Monthly, 12)
            == period_end(instant_on(year, month, day, time_of_day), BillingCadence::Annual),
{
    lemma_months_in_a_row(year, month, day, time_of_day, 12);
    law_annual_periods_follow_the_calendar(year, month, day, time_of_day);
}

/// What the first `n` lines come to together.
pub open spec fn sum_of_lines(lines: Seq<LineItem>, n: int) -> int
    decreases n,
{
    if n <= 0 {
        0
    } else {
        sum_of_lines(lines, n - 1) + lines[n - 1].total.amount_minor
    }
}

proof fn lemma_lines_add_up(
    lines: Seq<LineItem>,
    totals: Totals,
    items: Seq<RequestItem>,
    currency: Seq<char>,
    n: int,
)
    requires
        priced_basket(lines, totals, items, currency),
        0 <= n <= items.len(),
        forall|i: int|
            0 <= i < items.len() ==> 0 <= unit_price(#[trigger] items[i]) && 0
                <= items[i].quantity,
        sum_of_lines(lines, n) <= i64::MAX,
    ensures
        0 <= sum_of_lines(lines, n) == basket_price(items, n),
    decreases n,
{
    if n > 0 {
        let u = unit_price(items[n - 1]);
        let q = items[n - 1].quantity as int;
        assert(u * q >= 0) by (nonlinear_arith)
            requires
                u >= 0,
                q >= 0,
        ;
        assert(prices(lines[n - 1], items[n - 1], n - 1, currency));
        lemma_lines_add_up(lines, totals, items, currency, n - 1);
    }
}

/// A priced basket has one line for each item, in order, with its own price and quantity,
/// or ten units of the currency where it hints no price. The subtotal is the sum of the
/// lines, the tax is 8.75 percent of it without the fraction, and the total is both, up to
/// what an amount can hold.
pub proof fn law_baskets_add_up(
    lines: Seq<LineItem>,
    totals: Totals,
    items: Seq<RequestItem>,
    currency: Seq<char>,
    prefix: Seq<char>,
)
    requires
        priced_basket(lines, totals, items, currency),
        basket_error(items, prefix, 0) is None,
        sum_of_lines(lines, lines.len() as int) <= 8_000_000_000_000_000_000,
    ensures
        lines.len() == items.len(),
        forall|i: int|
            0 <= i < items.len() ==> {
                let line = #[trigger] lines[i];
                let item = items[i];
                &&& line.sku == item.sku && line.quantity == item.quantity
                &&& item.unit_price_hint matches Some(m) ==> line.unit_price.amount_minor
                    == m.amount_minor
                &&& item.unit_price_hint is None ==> line.unit_price.amount_minor == 1_000
                &&& line.unit_price.amount_minor * line.quantity <= i64::MAX
                    ==> line.total.amount_minor == line.unit_price.amount_minor * line.quantity
                &&& line.subtotal.amount_minor == line.total.amount_minor && line.tax is None
                &&& line.unit_price.currency@ == currency && line.total.currency@ == currency
            },
        totals.subtotal matches Some(s) && totals.tax matches Some(t) && totals.total matches Some(
            all,
        ) && s.amount_minor == sum_of_lines(lines, lines.len() as int) && 0 <= s.amount_minor * 875
            - t.amount_minor * 10_000 < 10_000 && all.amount_minor == s.amount_minor
            + t.amount_minor && s.currency@ == currency && t.currency@ == currency && all.currency@
            == currency,
        totals.discount is None,
        totals.shipping is None,
{
    assert forall|i: int| 0 <= i < items.len() implies 0 <= unit_price(#[trigger] items[i]) && 0
        <= items[i].quantity by {
        lemma_no_error_at(items, prefix, 0, i);
    }
    lemma_lines_add_up(lines, totals, items, currency, items.len() as int);
    assert forall|i: int| 0 <= i < items.len() implies {
        let line = #[trigger] lines[i];
        let item = items[i];
        &&& line.sku == item.sku && line.quantity == item.quantity
        &&& item.unit_price_hint matches Some(m) ==> line.unit_price.amount_minor == m.amount_minor
        &&& item.unit_price_hint is None ==> line.unit_price.amount_minor == 1_000
        &&& line.unit_price.amount_minor * line.quantity <= i64::MAX ==> line.total.amount_minor
            == line.unit_price.amount_minor * line.quantity
        &&& line.subtotal.amount_minor == line.total.amount_minor && line.tax is None
        &&& line.unit_price.currency@ == currency && line.total.currency@ == currency
    } by {
        assert(prices(lines[i], items[i], i, currency));
        let u = unit_price(items[i]);
        let q = items[i].quantity as int;
        assert(u * q >= 0) by (nonlinear_arith)
            requires
                u >= 0,
                q >= 0,
        ;
    }
}

proof fn lemma_faulty_basket(items: Seq<RequestItem>, prefix: Seq<char>, from: int)
    requires
        0 <= from <= items.len(),
    ensures
        basket_error(items, prefix, from) is Some <==> exists|i: int|
            from <= i < items.len() && (#[trigger] items[i].quantity <= 0 || (
            items[i].unit_price_hint matches Some(m) && m.amount_minor < 0)),
        basket_error(items, prefix, from) matches Some(e) ==> e is InvalidRequest,
    decreases items.len() - from,
{
    if from < items.len() {
        lemma_faulty_basket(items, prefix, from + 1);
        if position_error(items, prefix, from) is Some {
            assert(items[from].quantity <= 0 || (items[from].unit_price_hint matches Some(m)
                && m.amount_minor < 0));
        }
    }
}

/// A basket can be priced exactly when every quantity is positive and no hinted price is
/// negative; otherwise the request is invalid.
pub proof fn law_baskets_need_sound_positions(items: Seq<RequestItem>, prefix: Seq<char>)
    ensures
        basket_error(items, prefix, 0) is Some <==> exists|i: int|
            0 <= i < items.len() && (#[trigger] items[i].quantity <= 0 || (
            items[i].unit_price_hint matches Some(m) && m.amount_minor < 0)),
        basket_error(items, prefix, 0) matches Some(e) ==> e is InvalidRequest,
{
    lemma_faulty_basket(items, prefix, 0);
}

/// The tax is 8.75 percent without the fraction, and grows with what it is levied on.
pub proof fn law_tax_is_a_fixed_part(subtotal: int, more: int)
    requires
        0 <= subtotal <= more,
    ensures
        0 <= subtotal * 875 - flat_tax(subtotal) * 10_000 < 10_000,
        flat_tax(subtotal) <= flat_tax(more),
        flat_tax(-subtotal) == -flat_tax(subtotal),
        flat_tax(10_000) == 875,
{
}

/// Whether the text holds anything but white space.
pub open spec fn filled(text: Seq<char>) -> bool {
    exists|i: int| 0 <= i < text.len() && !is_white(#[trigger] text[i])
}

/// An instrument is accepted exactly when the fields that it needs hold something: a card
/// its token, a vault its token and its provider if it names one, a coin its asset, chain
/// and source, a payment between agents its peer, and an outside authorization its
/// provider and its id. Where the deployment requires outside authorizations, only they
/// are accepted.
pub proof fn law_instruments_need_their_fields(payment: PaymentInstrument, mode: Seq<char>)
    ensures
        payment_error(payment, mode) is None <==> (mode == "external_required"@ ==> payment
            is ExternalAuthorization) && match payment {
            PaymentInstrument::Card { token, .. } => token matches Some(t) && filled(t@),
            PaymentInstrument::DelegatedVault { token, provider } => filled(token@) && (
            provider matches Some(p) ==> filled(p@)),
            PaymentInstrument::Stablecoin { asset, chain, from, .. } => filled(asset@) && filled(
                chain@,
            ) && filled(from@),
            PaymentInstrument::A2A { peer_agent_id, .. } => filled(peer_agent_id@),
            PaymentInstrument::ExternalAuthorization { provider, authorization_id, .. } => filled(
                provider@,
            ) && filled(authorization_id@),
        },
        payment_error(payment, mode) matches Some(e) ==> e is InvalidRequest || e
            is PreconditionFailed,
        mode != "external_required"@ ==> (payment_error(payment, mode) matches Some(e) ==> e
            is InvalidRequest),
{
    assert forall|text: Seq<char>| (#[trigger] trimmed(text)).len() > 0 <==> filled(text) by {
        law_trimming_leaves_what_is_filled(text);
    }
}

/// What the raw parameters would cost grows by quantity times price with each position,
/// ten units of the currency where none is hinted, and is nothing for an empty basket.
pub proof fn law_estimates_add_up(items: Seq<JsonView>, item: JsonView, quantity: int, unit: int)
    requires
        item.member("quantity"@) == Some(JsonView::Int(quantity)),
        item.member("unit_price_hint"@) matches Some(hint) ==> hint.member("amount_minor"@)
            == Some(JsonView::Int(unit)),
        item.member("unit_price_hint"@) is None ==> unit == 1_000,
        i64::MIN <= quantity <= i64::MAX,
        i64::MIN <= unit <= i64::MAX,
        i64::MIN <= quantity * unit <= i64::MAX,
        i64::MIN <= estimated_sum(items, items.len() as int) + quantity * unit <= i64::MAX,
    ensures
        estimated_sum(items.push(item), items.len() as int + 1) == estimated_sum(
            items,
            items.len() as int,
        ) + quantity * unit,
        estimated_sum(Seq::empty(), 0) == 0,
{
    let more = items.push(item);
    lemma_estimate_prefix(items, more, items.len() as int);
    assert(more[items.len() as int] == item);
}

proof fn lemma_estimate_prefix(a: Seq<JsonView>, b: Seq<JsonView>, n: int)
    requires
        0 <= n <= a.len(),
        n <= b.len(),
        forall|i: int| 0 <= i < n ==> a[i] == b[i],
    ensures
        estimated_sum(a, n) == estimated_sum(b, n),
    decreases n,
{
    if n > 0 {
        lemma_estimate_prefix(a, b, n - 1);
    }
}

/// An intent is estimated by its inline items, and at nothing where it has none.
pub proof fn law_estimates_are_of_inline_items(params: JsonView)
    ensures
        params.member("items"@) matches Some(JsonView::Array(items)) ==> estimated_amount(params)
            == estimated_sum(items, items.len() as int),
        !(params.member("items"@) matches Some(JsonView::Array(_))) ==> estimated_amount(params)
            == 0,
{
}

/// Past the end of the calendar a month counts as thirty days and a year as 365.
pub proof fn law_periods_past_the_calendar_are_plain(start: int)
    ensures
        months_later(start, 1) is None ==> period_end(start, BillingCadence::Monthly) == start + 30
            * 24 * 3_600 * 1_000_000_000,
        months_later(start, 12) is None ==> period_end(start, BillingCadence::Annual) == start + 365
            * 24 * 3_600 * 1_000_000_000,
{
}

/// What raw parameters leave out counts for nothing: a position without a quantity costs
/// nothing, and a hint without an amount hints nothing.
pub proof fn law_estimates_of_incomplete_positions(item: JsonView, quantity: int)
    requires
        i64::MIN <= quantity * 1_000 <= i64::MAX,
        i64::MIN <= quantity <= i64::MAX,
    ensures
        item.member("quantity"@) is None ==> estimated_position(item) == 0,
        item.member("quantity"@) == Some(JsonView::Int(quantity)) && (item.member(
            "unit_price_hint"@,
        ) matches Some(hint) && hint.member("amount_minor"@) is None) ==> estimated_position(item)
            == quantity * 1_000,
{
    if item.member("quantity"@) is None {
        let unit = match item.member("unit_price_hint"@) {
            Some(hint) => integer_or(hint.member("amount_minor"@), 1_000),
            None => 1_000,
        };
        assert(0 * unit == 0);
    }
}

} // verus!
