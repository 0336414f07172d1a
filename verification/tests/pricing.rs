use stateset_icp_handler::errors::ApiError;
use stateset_icp_handler::json::{ArrayBuilder, Json, ObjectBuilder};
use stateset_icp_handler::models::{
    BillingCadence, IntentContext, IntentEnvelope, Money, PaymentInstrument, RequestItem, Totals,
};
use stateset_icp_handler::pricing::{
    apply_discount_to_totals, estimate_intent_amount_minor, flat_tax_minor, period_advance,
    period_is_representable, price_request_items, total_amount_minor, validate_payment_instrument,
};
use stateset_icp_handler::time::{Timestamp, MAX_SECS};

#[test]
fn apply_discount_recomputes_tax_on_post_discount_subtotal() {
    let mut totals = Totals {
        subtotal: Some(Money::new(10_000, "USD")),
        discount: None,
        shipping: None,
        tax: Some(Money::new(flat_tax_minor(10_000), "USD")),
        total: Some(Money::new(10_000 + flat_tax_minor(10_000), "USD")),
    };
    apply_discount_to_totals(&mut totals, 2_000, "USD");
    assert_eq!(totals.discount.as_ref().unwrap().amount_minor, 2_000);
    assert_eq!(totals.tax.as_ref().unwrap().amount_minor, 700);
    assert_eq!(totals.total.as_ref().unwrap().amount_minor, 8_700);
    assert_eq!(totals.subtotal.as_ref().unwrap().amount_minor, 10_000);
}

#[test]
fn discount_is_clamped_to_subtotal_so_total_never_goes_negative() {
    let mut totals = Totals {
        subtotal: Some(Money::new(5_000, "USD")),
        discount: None,
        shipping: None,
        tax: Some(Money::new(flat_tax_minor(5_000), "USD")),
        total: Some(Money::new(5_000 + flat_tax_minor(5_000), "USD")),
    };
    apply_discount_to_totals(&mut totals, 9_999_999, "USD");
    assert_eq!(totals.discount.as_ref().unwrap().amount_minor, 5_000);
    assert_eq!(totals.total.as_ref().unwrap().amount_minor, 0);
}

#[test]
fn tax_is_rounded_toward_zero() {
    assert_eq!(flat_tax_minor(10_000), 875);
    assert_eq!(flat_tax_minor(11), 0);
    assert_eq!(flat_tax_minor(12), 1);
    assert_eq!(flat_tax_minor(-12), -1);
    assert_eq!(flat_tax_minor(0), 0);
}

fn item(sku: &str, quantity: i64, price: Option<i64>) -> RequestItem {
    RequestItem {
        sku: sku.into(),
        quantity,
        unit_price_hint: price.map(|p| Money::new(p, "USD")),
    }
}

#[test]
fn baskets_are_priced_line_by_line() {
    let items = vec![item("A", 2, Some(1_500)), item("B", 1, None)];
    let (lines, totals) = price_request_items(&items, "USD", "params.items").unwrap();
    assert_eq!(lines.len(), 2);
    assert_eq!(lines[0].id, "li_000000");
    assert_eq!(lines[1].id, "li_000001");
    assert_eq!(lines[0].subtotal.amount_minor, 3_000);
    assert_eq!(lines[1].unit_price.amount_minor, 1_000);
    assert_eq!(totals.subtotal.as_ref().unwrap().amount_minor, 4_000);
    assert_eq!(totals.tax.as_ref().unwrap().amount_minor, 350);
    assert_eq!(total_amount_minor(&totals), 4_350);
    assert_eq!(total_amount_minor(&Totals::default()), 0);
}

#[test]
fn bad_positions_are_named() {
    let items = vec![item("A", 1, None), item("B", 0, None)];
    match price_request_items(&items, "USD", "params.items") {
        Err(ApiError::InvalidRequest(m)) => {
            assert_eq!(m, "params.items[1].quantity must be positive");
        }
        other => panic!("{other:?}"),
    }
    let items = vec![item("A", 1, Some(-1))];
    match price_request_items(&items, "USD", "params.items") {
        Err(ApiError::InvalidRequest(m)) => {
            assert_eq!(m, "params.items[0].unit_price_hint.amount_minor must be non-negative");
        }
        other => panic!("{other:?}"),
    }
}

#[test]
fn huge_baskets_saturate() {
    let items = vec![item("A", i64::MAX, Some(i64::MAX))];
    let (_, totals) = price_request_items(&items, "USD", "x").unwrap();
    assert_eq!(totals.subtotal.as_ref().unwrap().amount_minor, i64::MAX);
    assert_eq!(total_amount_minor(&totals), i64::MAX);
}

fn envelope(params: Json) -> IntentEnvelope {
    IntentEnvelope {
        intent: "intent.quote".into(),
        intent_id: None,
        transaction_id: None,
        agent_id: "a".into(),
        mandate_jti: None,
        params,
        context: IntentContext::default(),
    }
}

#[test]
fn amounts_are_estimated_from_the_parameters() {
    assert_eq!(
        estimate_intent_amount_minor(&envelope(ObjectBuilder::new().build())),
        0
    );
    let price = ObjectBuilder::new().put("amount_minor", Json::Int(500)).build();
    let line = ObjectBuilder::new()
        .put("quantity", Json::Int(3))
        .put("unit_price_hint", price)
        .build();
    let params = ObjectBuilder::new()
        .put("items", ArrayBuilder::new().put(line).build())
        .build();
    assert_eq!(estimate_intent_amount_minor(&envelope(params)), 1_500);
}

#[test]
fn settlement_modes_restrict_instruments() {
    let card = PaymentInstrument::Card {
        token: Some("tok".into()),
        last_digits: None,
        brand: None,
    };
    assert!(validate_payment_instrument(&card, "simulated").is_ok());
    assert!(validate_payment_instrument(&card, "external_required").is_err());
    let outside = PaymentInstrument::ExternalAuthorization {
        provider: "p".into(),
        authorization_id: "auth_1".into(),
        instrument_hint: None,
    };
    assert!(validate_payment_instrument(&outside, "external_required").is_ok());
    let blank = PaymentInstrument::DelegatedVault { token: "  ".into(), provider: None };
    assert!(matches!(
        validate_payment_instrument(&blank, "simulated"),
        Err(ApiError::InvalidRequest(_))
    ));
}

#[test]
fn periods_follow_the_calendar() {
    // 2026-01-31T00:00:00Z
    let end_of_january = Timestamp::from_unix(1_769_817_600).unwrap();
    // The shorter month ends earlier: 2026-02-28.
    assert_eq!(
        period_advance(end_of_january, BillingCadence::Monthly).unix_seconds(),
        1_769_817_600 + 28 * 86_400
    );
    assert_eq!(
        period_advance(end_of_january, BillingCadence::Weekly).unix_seconds(),
        1_769_817_600 + 7 * 86_400
    );
    assert_eq!(
        period_advance(end_of_january, BillingCadence::Annual).unix_seconds(),
        1_769_817_600 + 365 * 86_400
    );
    assert!(period_is_representable(end_of_january, BillingCadence::Annual));
    let last = Timestamp::from_unix(MAX_SECS).unwrap();
    assert!(!period_is_representable(last, BillingCadence::Weekly));
}
