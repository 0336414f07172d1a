use stateset_icp_handler::agent::{AgentIdentifier, ApiKeyInfo};
use stateset_icp_handler::config::Config;
use stateset_icp_handler::documents::answer_json;
use stateset_icp_handler::errors::ApiError;
use stateset_icp_handler::intent::Intent;
use stateset_icp_handler::json::{Json, ObjectBuilder};
use stateset_icp_handler::mandate::{
    MandateBudget, MandateEvaluation, MandatePayload, MandatePolicies, MandateTerms,
};
use stateset_icp_handler::models::{
    A2aPayParams, A2aQuoteParams, A2aServiceKind, A2aServiceSpec, AuthorizeParams, BillingCadence,
    BuyParams, ConfirmReceiptParams, DiscountRequest, IntentContext, IntentEnvelope, IntentResponseBody,
    Money, NegotiateParams, PaymentInstrument, PeerQuoteStatus, QuoteParams, ReceiptStub,
    RenewParams, RequestItem, SubscribeParams, SubscriptionRefParams, SubscriptionStatus,
    TransactionState,
};
use stateset_icp_handler::service::dispatch::{intent_event, FreshIds, IntentParams, Step};
use stateset_icp_handler::service::expiry::ExpiryTickReport;
use stateset_icp_handler::service::helpers::{order_from_reply, EngineReply};
use stateset_icp_handler::service::locks::{
    idempotency_lock_name, lock_name_for, retry_key_for, transaction_lock_name,
};
use stateset_icp_handler::service::renewal::{
    dunning_max_attempts, dunning_next_attempt, RenewalAttempt,
};
use stateset_icp_handler::service::run::{IntentRun, Progress, Reply, Waiting};
use stateset_icp_handler::service::subscriptions::{first_period_is_representable, SubscribeStep};
use stateset_icp_handler::service::{IcpService, IntentInput, PersistedOrder};
use stateset_icp_handler::signing::ReceiptSigner;
use stateset_icp_handler::time::{Span, Timestamp};

fn now() -> Timestamp {
    Timestamp::from_unix(1_776_770_000).unwrap()
}

fn after(span: Span) -> Timestamp {
    now().checked_add(span).unwrap()
}

fn service() -> IcpService {
    let mut config = Config::for_test();
    config.production = false;
    config.webhook_url = None;
    IcpService::new(config, ReceiptSigner::generate("kid-1"), 5)
}

fn tenant(id: &str) -> ApiKeyInfo {
    ApiKeyInfo {
        key: "k".into(),
        tenant_id: id.into(),
        name: "n".into(),
        rate_limit_per_minute: None,
        allowed_agents: None,
        expires_at: None,
    }
}

fn input_for(tenant_id: &str, intent: &str, params: Json) -> IntentInput {
    IntentInput::for_icp(
        IntentEnvelope {
            intent: intent.into(),
            intent_id: Some("int_1".into()),
            transaction_id: None,
            agent_id: "did:stateset:agent:a".into(),
            mandate_jti: None,
            params,
            context: IntentContext { currency: Some("USD".into()), ..IntentContext::default() },
        },
        AgentIdentifier::parse("did:stateset:agent:a"),
        tenant(tenant_id),
        None,
        "req_1".into(),
        None,
    )
}

fn input(intent: &str) -> IntentInput {
    input_for("t1", intent, ObjectBuilder::new().build())
}

fn items() -> Vec<RequestItem> {
    vec![RequestItem {
        sku: "SKU-1".into(),
        quantity: 2,
        unit_price_hint: Some(Money::new(5_000, "USD")),
    }]
}

fn quote_params() -> QuoteParams {
    QuoteParams { items: items(), buyer: None, ship_to: None, discount_codes: vec![] }
}

fn card() -> PaymentInstrument {
    PaymentInstrument::Card { token: Some("tok_1".into()), last_digits: None, brand: None }
}

fn authorize(id: &str) -> AuthorizeParams {
    AuthorizeParams { transaction_id: id.into(), buyer: None, ship_to: None, bill_to: None }
}

fn buy(id: &str) -> BuyParams {
    BuyParams { transaction_id: id.into(), payment: card() }
}

fn quoted(s: &mut IcpService, id: &str) {
    s.do_quote(&input("intent.quote"), quote_params(), None, now(), id.into()).unwrap();
}

fn state_of(s: &IcpService, id: &str) -> TransactionState {
    s.transactions.get(id).unwrap().state
}

fn mandate(budget: i64) -> MandateEvaluation {
    MandateEvaluation {
        payload: MandatePayload {
            iss: "did:buyer:alice".into(),
            sub: "did:stateset:agent:a".into(),
            iat: 0,
            nbf: 0,
            exp: i64::MAX,
            jti: "m1".into(),
            icp: MandateTerms {
                version: "2026-04-21".into(),
                scope: vec!["buy".into()],
                budget: MandateBudget {
                    currency: "USD".into(),
                    amount_minor: budget,
                    per_transaction: None,
                    period: Some("P1D".into()),
                },
                merchants: vec!["*".into()],
                categories: vec![],
                jurisdictions: vec![],
                policies: MandatePolicies::default(),
                linked_payment_methods: vec![],
            },
        },
        compact_jws: "a.b.c".into(),
        spend_room_minor: budget,
        signature_verified: true,
    }
}

#[test]
fn search_and_describe_open_drafts() {
    let mut s = service();
    let o = s.do_search(&input("intent.search"), now(), "txn_1".into());
    assert_eq!(o.transaction.id, "txn_1");
    assert_eq!(o.transaction.state, TransactionState::Draft);
    let o = s.do_describe(&input("intent.describe"), now(), "txn_2".into());
    assert_eq!(o.transaction.tenant_id, "t1");
    assert!(o.order.is_none());
}

#[test]
fn a_quote_is_priced_and_expires() {
    let mut s = service();
    let o = s
        .do_quote(&input("intent.quote"), quote_params(), None, now(), "txn_1".into())
        .unwrap();
    assert_eq!(o.transaction.state, TransactionState::Quoted);
    assert_eq!(o.transaction.totals.total.as_ref().unwrap().amount_minor, 10_875);
    assert_eq!(
        o.transaction.quote_expires_at.unwrap().unix_seconds(),
        now().unix_seconds() + 900
    );
    // A discount needs a code.
    let o = s
        .do_quote(&input("intent.quote"), quote_params(), Some(2_000), now(), "txn_2".into())
        .unwrap();
    assert_eq!(o.transaction.totals.total.as_ref().unwrap().amount_minor, 10_875);
    let mut coded = quote_params();
    coded.discount_codes = vec!["SAVE20".into()];
    let o = s
        .do_quote(&input("intent.quote"), coded, Some(2_000), now(), "txn_2".into())
        .unwrap();
    assert_eq!(o.transaction.totals.total.as_ref().unwrap().amount_minor, 8_700);
    let mut empty = quote_params();
    empty.items = vec![];
    assert!(matches!(
        s.do_quote(&input("intent.quote"), empty, None, now(), "txn_3".into()),
        Err(ApiError::InvalidRequest(_))
    ));
}

#[test]
fn a_purchase_goes_from_quote_to_completion() {
    let mut s = service();
    quoted(&mut s, "txn_1");
    let o = s.do_authorize(&input("intent.authorize"), authorize("txn_1"), now()).unwrap();
    assert_eq!(o.transaction.state, TransactionState::Authorized);
    let t = s.begin_buy(&input("intent.buy"), &buy("txn_1"), None, now()).unwrap();
    assert_eq!(t.id, "txn_1");
    let order = PersistedOrder {
        id: "ord_1".into(),
        order_number: "1001".into(),
        total: Money::new(10_875, "USD"),
    };
    let o = s.finish_buy("txn_1", EngineReply::Persisted(order), now()).unwrap();
    assert_eq!(o.transaction.state, TransactionState::Completed);
    assert_eq!(o.order.as_ref().unwrap().id, "ord_1");
    assert_eq!(s.transactions.get("txn_1").unwrap().order_id.as_deref(), Some("ord_1"));
    // It cannot be bought again.
    assert!(s.begin_buy(&input("intent.buy"), &buy("txn_1"), None, now()).is_err());
}

#[test]
fn other_tenants_find_nothing() {
    let mut s = service();
    quoted(&mut s, "txn_1");
    let stranger = input_for("t2", "intent.authorize", ObjectBuilder::new().build());
    assert!(matches!(
        s.do_authorize(&stranger, authorize("txn_1"), now()),
        Err(ApiError::ResourceNotFound(_))
    ));
    assert!(matches!(
        s.begin_buy(&stranger, &buy("txn_1"), None, now()),
        Err(ApiError::ResourceNotFound(_))
    ));
    assert_eq!(state_of(&s, "txn_1"), TransactionState::Quoted);
}

#[test]
fn stale_quotes_cannot_be_authorized_or_bought() {
    let mut s = service();
    quoted(&mut s, "txn_1");
    quoted(&mut s, "txn_2");
    let late = after(Span::seconds(901));
    assert!(s.do_authorize(&input("intent.authorize"), authorize("txn_1"), late).is_err());
    assert!(s.begin_buy(&input("intent.buy"), &buy("txn_2"), None, late).is_err());
    assert_eq!(state_of(&s, "txn_1"), TransactionState::Expired);
    assert_eq!(state_of(&s, "txn_2"), TransactionState::Expired);
}

#[test]
fn purchases_are_charged_to_the_mandate() {
    let mut s = service();
    quoted(&mut s, "txn_1");
    quoted(&mut s, "txn_2");
    let m = mandate(12_000);
    s.begin_buy(&input("intent.buy"), &buy("txn_1"), Some(&m), now()).unwrap();
    assert_eq!(s.mandates.usage("m1").spent_minor, 10_875);
    assert!(matches!(
        s.begin_buy(&input("intent.buy"), &buy("txn_2"), Some(&m), now()),
        Err(ApiError::MandateBudgetExceeded(_))
    ));
    assert_eq!(s.mandates.usage("m1").spent_minor, 10_875);
}

#[test]
fn engine_replies_become_orders() {
    assert!(matches!(order_from_reply(EngineReply::NoEngine, false), Ok(None)));
    assert!(matches!(
        order_from_reply(EngineReply::Failed(ApiError::EngineUnavailable("x".into())), true),
        Err(ApiError::EngineUnavailable(_))
    ));
}

fn order_params(id: &str) -> Json {
    ObjectBuilder::new()
        .put_str("order_id", id)
        .put_str("transaction_id", id)
        .put_str("reason", "damaged")
        .build()
}

#[test]
fn completed_orders_are_tracked_and_returned() {
    let mut s = service();
    quoted(&mut s, "txn_1");
    s.begin_buy(&input("intent.buy"), &buy("txn_1"), None, now()).unwrap();
    s.finish_buy("txn_1", EngineReply::NoEngine, now()).unwrap();
    let track = input_for("t1", "intent.track", order_params("txn_1"));
    assert_eq!(s.do_track(&track).unwrap().transaction.id, "txn_1");
    let stranger = input_for("t2", "intent.track", order_params("txn_1"));
    assert!(matches!(s.do_track(&stranger), Err(ApiError::ResourceNotFound(_))));
    let back = input_for("t1", "intent.return", order_params("txn_1"));
    let o = s.do_return(&back, now()).unwrap();
    assert_eq!(o.transaction.state, TransactionState::Reversed);
}

#[test]
fn discounts_are_negotiated_within_bounds() {
    let mut s = service();
    quoted(&mut s, "txn_1");
    let offer = |percent: &str, within: bool, kept: i64| NegotiateParams {
        transaction_id: "txn_1".into(),
        proposed_total: None,
        discount: Some(DiscountRequest {
            percent: percent.into(),
            shown: percent.into(),
            within_bounds: within,
            kept_basis_points: kept,
        }),
        message: None,
    };
    let o = s
        .do_negotiate(&input("intent.negotiate"), offer("10", true, 9_000), now())
        .unwrap();
    assert_eq!(o.transaction.state, TransactionState::Quoted);
    assert_eq!(o.transaction.totals.subtotal.as_ref().unwrap().amount_minor, 10_000);
    assert!(o.transaction.external_refs.len() >= 1);
    let before = o.transaction.external_refs.len();
    assert!(s
        .do_negotiate(&input("intent.negotiate"), offer("120", false, 0), now())
        .is_err());
    // Every offer is kept.
    s.do_negotiate(&input("intent.negotiate"), offer("5", true, 9_500), now()).unwrap();
    assert!(s.transactions.get("txn_1").unwrap().external_refs.len() > before);
}

#[test]
fn halves_are_rounded_up() {
    let mut s = service();
    quoted(&mut s, "txn_1");
    let mut t = s.transactions.get("txn_1").unwrap().clone();
    t.totals.total = Some(Money::new(101, "USD"));
    s.transactions.insert("txn_1".into(), t);
    let offer = NegotiateParams {
        transaction_id: "txn_1".into(),
        proposed_total: None,
        discount: Some(DiscountRequest {
            percent: "50".into(),
            shown: "50".into(),
            within_bounds: true,
            kept_basis_points: 5_000,
        }),
        message: None,
    };
    let o = s.do_negotiate(&input("intent.negotiate"), offer, now()).unwrap();
    let refs = &o.transaction.external_refs;
    assert!((0..refs.len()).any(|i| refs.entry_at(i).value.contains("\"to_minor\":51")));
}

#[test]
fn receipts_are_confirmed_once() {
    let mut s = service();
    quoted(&mut s, "txn_1");
    let confirm = || ConfirmReceiptParams { transaction_id: "txn_1".into(), note: None };
    assert!(s
        .do_confirm_receipt(&input("intent.confirm_receipt"), confirm(), now())
        .is_err());
    s.begin_buy(&input("intent.buy"), &buy("txn_1"), None, now()).unwrap();
    s.finish_buy("txn_1", EngineReply::NoEngine, now()).unwrap();
    s.do_confirm_receipt(&input("intent.confirm_receipt"), confirm(), now()).unwrap();
    assert!(s
        .do_confirm_receipt(&input("intent.confirm_receipt"), confirm(), now())
        .is_err());
}

fn peer_quote(peer: &str) -> A2aQuoteParams {
    A2aQuoteParams {
        peer_agent_id: peer.into(),
        service: A2aServiceSpec {
            kind: A2aServiceKind::Compute,
            description: "one hour".into(),
            params: Json::Null,
        },
        price_hint: Some(Money::new(700, "USD")),
        expires_in_seconds: Some(60),
        reference_id: None,
    }
}

fn peer_pay(id: &str) -> A2aPayParams {
    A2aPayParams {
        peer_quote_id: Some(id.into()),
        peer_agent_id: None,
        amount: None,
        from: "did:stateset:agent:a".into(),
        payment: None,
        memo: None,
    }
}

#[test]
fn peer_quotes_are_paid_once() {
    let mut s = service();
    let o = s
        .do_a2a_quote(
            &input("intent.a2a_quote"),
            peer_quote("did:stateset:agent:b"),
            None,
            now(),
            "pq_1".into(),
            "txn_1".into(),
        )
        .unwrap();
    assert_eq!(o.peer_quote.as_ref().unwrap().id, "pq_1");
    let o = s
        .do_a2a_pay(&input("intent.a2a_pay"), peer_pay("pq_1"), None, now(), "txn_2".into())
        .unwrap();
    assert_eq!(o.peer_quote.as_ref().unwrap().status, PeerQuoteStatus::Accepted);
    assert!(s
        .do_a2a_pay(&input("intent.a2a_pay"), peer_pay("pq_1"), None, now(), "txn_3".into())
        .is_err());
}

#[test]
fn agents_do_not_pay_themselves() {
    let mut s = service();
    let own = A2aPayParams {
        peer_quote_id: None,
        peer_agent_id: Some("did:stateset:agent:a".into()),
        amount: Some(Money::new(5, "USD")),
        from: "did:stateset:agent:a".into(),
        payment: None,
        memo: None,
    };
    assert!(s
        .do_a2a_pay(&input("intent.a2a_pay"), own, None, now(), "txn_1".into())
        .is_err());
    assert!(s
        .do_a2a_quote(
            &input("intent.a2a_quote"),
            peer_quote("did:stateset:agent:a"),
            None,
            now(),
            "pq".into(),
            "txn".into(),
        )
        .is_err());
}

fn subscribe(trial: Option<u32>) -> SubscribeParams {
    SubscribeParams {
        items: items(),
        buyer: None,
        ship_to: None,
        cadence: BillingCadence::Weekly,
        payment: card(),
        trial_days: trial,
    }
}

fn enrolled(s: &mut IcpService, id: &str) {
    assert!(first_period_is_representable(&subscribe(None), now()));
    let step = s
        .begin_subscribe(
            &input("intent.subscribe"),
            subscribe(None),
            None,
            now(),
            id.into(),
            format!("txn_{id}"),
        )
        .unwrap();
    let pending = match step {
        SubscribeStep::Charge(p) => p,
        SubscribeStep::Enrolled(_) => panic!(),
    };
    let o = s.finish_subscribe(pending, EngineReply::NoEngine).unwrap();
    assert_eq!(o.subscription.as_ref().unwrap().status, SubscriptionStatus::Active);
}

#[test]
fn subscriptions_start_with_a_charge_or_a_trial() {
    let mut s = service();
    enrolled(&mut s, "sub_1");
    let sub = s.subscriptions.get("sub_1").unwrap();
    assert_eq!(sub.charges_completed, 1);
    assert_eq!(sub.next_charge_at.unix_seconds(), now().unix_seconds() + 7 * 86_400);
    let step = s
        .begin_subscribe(
            &input("intent.subscribe"),
            subscribe(Some(14)),
            None,
            now(),
            "sub_2".into(),
            "txn_9".into(),
        )
        .unwrap();
    match step {
        SubscribeStep::Enrolled(o) => {
            let sub = o.subscription.unwrap();
            assert_eq!(sub.status, SubscriptionStatus::Trialing);
            assert_eq!(sub.charges_completed, 0);
            assert_eq!(
                sub.trial_end.unwrap().unix_seconds(),
                now().unix_seconds() + 14 * 86_400
            );
        }
        SubscribeStep::Charge(_) => panic!(),
    }
}

#[test]
fn trial_previews_cannot_be_bought() {
    let mut s = service();
    s.begin_subscribe(
        &input("intent.subscribe"),
        subscribe(Some(14)),
        None,
        now(),
        "sub_2".into(),
        "txn_9".into(),
    )
    .unwrap();
    assert!(s.transactions.get("txn_9").is_some());
    assert!(s.begin_buy(&input("intent.buy"), &buy("txn_9"), None, now()).is_err());
}

#[test]
fn renewals_keep_the_rhythm() {
    let mut s = service();
    enrolled(&mut s, "sub_1");
    let params = || RenewParams { subscription_id: "sub_1".into(), payment: card() };
    let later = after(Span::days(8));
    let charge = s
        .begin_renew(&input("intent.renew"), &params(), None, later, "txn_r".into())
        .unwrap();
    let o = s
        .finish_renew(params(), charge, None, EngineReply::NoEngine, later)
        .unwrap();
    let sub = o.subscription.unwrap();
    assert_eq!(sub.charges_completed, 2);
    assert_eq!(sub.current_period_start.unix_seconds(), now().unix_seconds() + 7 * 86_400);
    assert_eq!(sub.current_period_end.unix_seconds(), now().unix_seconds() + 14 * 86_400);
}

#[test]
fn canceled_is_for_good() {
    let mut s = service();
    enrolled(&mut s, "sub_1");
    let reference = || SubscriptionRefParams { subscription_id: "sub_1".into() };
    let o = s.do_pause(&input("intent.pause"), reference(), now(), "txn_p".into()).unwrap();
    assert_eq!(o.subscription.unwrap().status, SubscriptionStatus::Paused);
    let o = s
        .do_cancel_subscription(
            &input("intent.cancel_subscription"),
            reference(),
            now(),
            "txn_c".into(),
        )
        .unwrap();
    assert_eq!(o.subscription.unwrap().status, SubscriptionStatus::Canceled);
    assert!(s.do_pause(&input("intent.pause"), reference(), now(), "txn_q".into()).is_err());
    let params = RenewParams { subscription_id: "sub_1".into(), payment: card() };
    assert!(s
        .begin_renew(&input("intent.renew"), &params, None, now(), "txn_r".into())
        .is_err());
}

#[test]
fn due_subscriptions_are_renewed_by_the_scheduler() {
    let mut s = service();
    enrolled(&mut s, "sub_1");
    assert_eq!(s.plan_renewals(now()).len(), 0);
    let due = after(Span::days(7));
    let plan = s.plan_renewals(due);
    assert_eq!(plan.len(), 1);
    let attempts: Vec<RenewalAttempt> = plan
        .into_iter()
        .map(|d| RenewalAttempt {
            subscription_id: d.subscription_id,
            charge: d.charge.map(|t| (t, EngineReply::NoEngine)),
        })
        .collect();
    let (report, events) = s.tick_subscriptions(attempts, due);
    assert_eq!((report.scanned, report.due, report.renewed, report.failed), (1, 1, 1, 0));
    assert_eq!(events.len(), 1);
    assert_eq!(events[0].tenant_id, "t1");
    let sub = s.subscriptions.get("sub_1").unwrap();
    assert_eq!(sub.charges_completed, 2);
    assert_eq!(sub.current_period_start.unix_seconds(), due.unix_seconds());
}

#[test]
fn trials_end_with_their_first_renewal() {
    let mut s = service();
    s.begin_subscribe(
        &input("intent.subscribe"),
        subscribe(Some(14)),
        None,
        now(),
        "sub_2".into(),
        "txn_9".into(),
    )
    .unwrap();
    let due = after(Span::days(14));
    let attempts: Vec<RenewalAttempt> = s
        .plan_renewals(due)
        .into_iter()
        .map(|d| RenewalAttempt {
            subscription_id: d.subscription_id,
            charge: d.charge.map(|t| (t, EngineReply::NoEngine)),
        })
        .collect();
    let (report, _) = s.tick_subscriptions(attempts, due);
    assert_eq!((report.due, report.renewed), (1, 1));
    let sub = s.subscriptions.get("sub_2").unwrap();
    assert_eq!(sub.status, SubscriptionStatus::Active);
    assert!(sub.trial_end.is_none());
    assert_eq!(sub.charges_completed, 1);
}

#[test]
fn failing_renewals_are_retried_and_end_past_due() {
    let mut s = service();
    s.config.subscription_dunning_schedule_hours = vec![1, 6];
    enrolled(&mut s, "sub_1");
    let mut at = after(Span::days(7));
    let fail = || {
        vec![RenewalAttempt {
            subscription_id: "sub_1".into(),
            charge: Err(ApiError::EngineUnavailable("down".into())),
        }]
    };
    let (report, events) = s.tick_subscriptions(fail(), at);
    assert_eq!((report.failed, report.past_due, events.len()), (1, 0, 0));
    let next = s.subscriptions.get("sub_1").unwrap().next_charge_at;
    assert_eq!(next.unix_seconds(), at.unix_seconds() + 3_600);
    assert_eq!(s.plan_renewals(at).len(), 0);
    at = next;
    let (report, _) = s.tick_subscriptions(fail(), at);
    assert_eq!((report.failed, report.past_due), (1, 0));
    at = s.subscriptions.get("sub_1").unwrap().next_charge_at;
    let (report, events) = s.tick_subscriptions(fail(), at);
    assert_eq!((report.failed, report.past_due, events.len()), (1, 1, 1));
    let sub = s.subscriptions.get("sub_1").unwrap();
    assert_eq!(sub.status, SubscriptionStatus::PastDue);
    assert_eq!(sub.failed_renewal_attempts, 3);
}

#[test]
fn retries_follow_the_schedule() {
    assert_eq!(dunning_max_attempts(&vec![]), IcpService::MAX_RENEWAL_FAILURES);
    assert_eq!(dunning_max_attempts(&vec![1, 6, 24]), 4);
    let at = dunning_next_attempt(&vec![1, 6, 24], 2, now()).unwrap();
    assert_eq!(at.unix_seconds(), now().unix_seconds() + 6 * 3_600);
    assert!(dunning_next_attempt(&vec![1, 6, 24], 4, now()).is_none());
    assert!(dunning_next_attempt(&vec![], 1, now()).is_none());
}

#[test]
fn sweeping_closes_stale_quotes_once() {
    let mut s = service();
    quoted(&mut s, "txn_1");
    s.do_a2a_quote(
        &input("intent.a2a_quote"),
        peer_quote("did:stateset:agent:b"),
        None,
        now(),
        "pq_1".into(),
        "txn_2".into(),
    )
    .unwrap();
    let (report, events) = s.tick_expiries(now());
    assert_eq!((report.transactions_expired, report.peer_quotes_expired, events.len()), (0, 0, 0));
    let late = after(Span::seconds(1_000));
    let (report, events) = s.tick_expiries(late);
    // The transaction of the peer quote lapses with it.
    assert_eq!((report.transactions_expired, report.peer_quotes_expired), (2, 1));
    assert_eq!(events.len(), 3);
    assert_eq!(state_of(&s, "txn_1"), TransactionState::Expired);
    assert_eq!(s.peer_quotes.get("pq_1").unwrap().status, PeerQuoteStatus::Expired);
    let (again, _) = s.tick_expiries(late);
    assert_eq!(again, ExpiryTickReport { transactions_expired: 0, peer_quotes_expired: 0 });
}

#[test]
fn requests_are_admitted_by_agent_intent_and_mandate() {
    let mut s = service();
    s.config.require_mandate = true;
    let mut wrong = input("intent.quote");
    wrong.envelope.agent_id = "someone".into();
    assert!(matches!(s.accept_intent(&wrong), Err(ApiError::AuthenticationFailed(_))));
    assert!(matches!(
        s.accept_intent(&input("intent.nope")),
        Err(ApiError::IntentNotSupported(_))
    ));
    assert!(matches!(
        s.accept_intent(&input("intent.buy")),
        Err(ApiError::MandateInvalid(_))
    ));
    assert!(s.accept_intent(&input("intent.search")).unwrap().check.is_none());
    let mut with = input("intent.buy");
    with.mandate_jws = Some("a.b.c".into());
    assert_eq!(s.accept_intent(&with).unwrap().check.unwrap().scope, "buy");
    s.config.require_mandate = false;
    assert!(s.accept_intent(&input("intent.buy")).unwrap().check.is_none());
}

#[test]
fn a_mandate_is_for_its_subject() {
    let s = service();
    assert!(s
        .accept_mandate(mandate(1), None, &AgentIdentifier::parse("did:stateset:agent:a"))
        .is_ok());
    assert!(matches!(
        s.accept_mandate(mandate(1), None, &AgentIdentifier::parse("other")),
        Err(ApiError::MandateOutOfScope(_))
    ));
}

fn ids() -> FreshIds {
    FreshIds {
        transaction: "txn_f".into(),
        subscription: "sub_f".into(),
        peer_quote: "pq_f".into(),
        intent: "int_f".into(),
        receipt: "rcpt_f".into(),
        event: "evt_f".into(),
    }
}

#[test]
fn intents_are_executed_signed_and_published() {
    let mut s = service();
    let i = input("intent.quote");
    let step = s
        .execute(
            Intent::Quote,
            &i,
            Ok(IntentParams::Quote(quote_params())),
            None,
            None,
            now(),
            ids(),
        )
        .unwrap();
    let outcome = match step {
        Step::Done(o) => o,
        _ => panic!(),
    };
    let body = s.unsigned_body(Intent::Quote, &i, outcome, now(), "int_f".into());
    assert_eq!(body.intent, "intent.quote");
    assert_eq!(body.intent_id, "int_1");
    assert_eq!(body.receipt.jws, "");
    let claims = s.claims_for(Intent::Quote, &i, &body, None, b"{}", now(), "rcpt_1".into());
    assert_eq!(claims.jti, "rcpt_1");
    assert_eq!(claims.icp.transaction_id, "txn_f");
    assert_eq!(
        claims.icp.body_digest,
        "sha256:44136fa355b3678a1146ad16f7e8649e94fb4fc21fe77e8310c060f61caaff8a"
    );
    let body = s.seal(body, claims).unwrap();
    assert_eq!(body.receipt.jti, "rcpt_1");
    assert_eq!(body.receipt.jws.split('.').count(), 3);
    assert_eq!(s.get_receipt("t1", "rcpt_1").unwrap().jws, body.receipt.jws);
    assert!(s.get_receipt("t2", "rcpt_1").is_err());
    assert_eq!(s.get_transaction("t1", "txn_f").unwrap().id, body.transaction.id);
    let event = intent_event(Intent::Quote, &i.agent, &body, Json::Null, now(), "evt_1".into());
    assert_eq!(event.event_type, "transaction.quoted");
    assert!(s.event_belongs_to_tenant(&event, "t1"));
    assert!(!s.event_belongs_to_tenant(&event, "t2"));
    s.publish(event, Some("t1"), true, now());
    assert_eq!(s.events.len(), 1);
    assert_eq!(s.webhook_outbox.len(), 0);
}

#[test]
fn unreadable_parameters_are_refused() {
    let mut s = service();
    let r = s.execute(
        Intent::Quote,
        &input("intent.quote"),
        Err("missing field `items`".into()),
        None,
        None,
        now(),
        ids(),
    );
    assert!(matches!(r, Err(ApiError::InvalidRequest(_))));
}

#[test]
fn charges_pause_for_the_engine() {
    let mut s = service();
    quoted(&mut s, "txn_1");
    let step = s
        .execute(
            Intent::Pay,
            &input("intent.pay"),
            Ok(IntentParams::Buy(buy("txn_1"))),
            None,
            None,
            now(),
            ids(),
        )
        .unwrap();
    assert!(matches!(step, Step::Buy(t) if t.id == "txn_1"));
}

fn go_on(s: &mut IcpService, run: IntentRun, reply: Reply) -> IntentRun {
    match s.handle_intent(run, reply, now(), ids()) {
        Progress::Waiting(run) => run,
        other => panic!("{other:?}"),
    }
}

fn finished(s: &mut IcpService, run: IntentRun, reply: Reply) -> IntentResponseBody {
    match s.handle_intent(run, reply, now(), ids()) {
        Progress::Answered(body) => body,
        other => panic!("{other:?}"),
    }
}

#[test]
fn a_run_goes_from_admission_to_its_answer() {
    let mut s = service();
    s.config.require_mandate = false;
    let run = s.start_intent(input("intent.quote")).unwrap();
    assert!(matches!(run.waiting(), Waiting::Params));
    assert_eq!(run.intent(), Intent::Quote);
    let params = Reply::Params(Ok(IntentParams::Quote(quote_params())), None);
    let body = finished(&mut s, run, params);
    assert_eq!(body.transaction.state, TransactionState::Quoted);
    assert!(body.receipt.jws.len() > 0);
    assert_eq!(s.events.len(), 1);

    let run = s.start_intent(input("intent.buy")).unwrap();
    let run = go_on(&mut s, run, Reply::Params(Ok(IntentParams::Buy(buy("txn_f"))), None));
    assert!(matches!(run.waiting(), Waiting::Engine(Step::Buy(_))));
    let body = finished(&mut s, run, Reply::Engine(EngineReply::NoEngine));
    assert_eq!(body.transaction.state, TransactionState::Completed);
}

#[test]
fn answers_carry_receipts_over_their_canonical_form() {
    let mut s = service();
    s.config.require_mandate = false;
    let run = s.start_intent(input("intent.quote")).unwrap();
    let params = Reply::Params(Ok(IntentParams::Quote(quote_params())), None);
    let mut body = finished(&mut s, run, params);
    let receipt = std::mem::replace(
        &mut body.receipt,
        ReceiptStub {
            jti: String::new(),
            kid: "kid-1".into(),
            jws: String::new(),
            body_digest: String::new(),
        },
    );
    let canonical = answer_json(&body).to_canonical().unwrap();
    let claims = s.receipts.get("rcpt_f").unwrap().claims;
    assert_eq!(receipt.jti, "rcpt_f");
    assert_eq!(claims.aud, input("intent.quote").agent.raw);
    assert_eq!(claims.icp.intent, "intent.quote");
    assert_eq!(claims.icp.transaction_id, "txn_f");
    let header = s.signer.header();
    let verified =
        s.signer.verify_receipt(&receipt.jws, Ok(header), Ok(claims), Some(&canonical));
    assert_eq!(verified.unwrap().icp.body_digest, receipt.body_digest);
    // The event tells what was answered.
    let told = s.events[0].payload.to_text();
    assert!(told.contains(&receipt.jws));
}

#[test]
fn read_only_answers_have_no_receipt() {
    let mut s = service();
    let run = s.start_intent(input("intent.search")).unwrap();
    let body = finished(&mut s, run, Reply::Params(Ok(IntentParams::Direct), None));
    assert_eq!(body.receipt.jws, "");
    assert_eq!(body.receipt.kid, "kid-1");
    assert!(s.receipts.is_empty());
}

#[test]
fn nothing_runs_without_its_mandate() {
    let mut s = service();
    s.config.require_mandate = true;
    s.config.verify_mandate_signatures = false;
    assert!(matches!(
        s.start_intent(input("intent.quote")),
        Err(ApiError::MandateInvalid(_))
    ));
    let mut with = input("intent.buy");
    with.mandate_jws = Some("e30.e30.".into());
    let run = s.start_intent(with).unwrap();
    assert!(matches!(run.waiting(), Waiting::Mandate(c) if c.scope == "buy"));
    let mut payload = mandate(1_000).payload;
    payload.exp = now().unix_seconds() + 60;
    let run = go_on(&mut s, run, Reply::Mandate(Ok(payload)));
    assert!(matches!(run.waiting(), Waiting::Params));
    assert_eq!(run.mandate().unwrap().payload.jti, "m1");
}

#[test]
fn signatures_are_demanded_where_they_are_checked() {
    let mut s = service();
    s.config.verify_mandate_signatures = true;
    let mut with = input("intent.buy");
    with.mandate_jws = Some("e30.e30.".into());
    let run = s.start_intent(with).unwrap();
    let mut payload = mandate(1_000).payload;
    payload.exp = now().unix_seconds() + 60;
    let run = go_on(&mut s, run, Reply::Mandate(Ok(payload)));
    assert!(matches!(run.waiting(), Waiting::MandateHeader(_)));
    let header = stateset_icp_handler::mandate::MandateHeader { alg: "none".into(), kid: None };
    assert!(matches!(
        s.handle_intent(run, Reply::MandateHeader(Ok(header)), now(), ids()),
        Progress::Refused(ApiError::MandateInvalid(_))
    ));
}

#[test]
fn lock_names_keep_tenants_apart() {
    assert_eq!(idempotency_lock_name("ab", "c"), "idem:2:abc");
    assert_ne!(idempotency_lock_name("a", "bc"), idempotency_lock_name("ab", "c"));
    assert_eq!(idempotency_lock_name("é", "k"), "idem:2:ék");
    assert_eq!(transaction_lock_name("x"), "txn:x");
}

#[test]
fn retries_are_recognised_by_key_or_by_intent() {
    let given = Some("k".to_string());
    let id = Some("int_1".to_string());
    assert_eq!(retry_key_for(&given, "a", &id).as_deref(), Some("k"));
    assert_eq!(retry_key_for(&None, "ab", &id).as_deref(), Some("intent:2:abint_1"));
    assert_eq!(retry_key_for(&None, "ab", &None), None);
}

#[test]
fn closed_transactions_stay_closed() {
    let mut s = service();
    quoted(&mut s, "txn_1");
    s.begin_buy(&input("intent.buy"), &buy("txn_1"), None, now()).unwrap();
    s.finish_buy("txn_1", EngineReply::NoEngine, now()).unwrap();
    assert!(s.do_authorize(&input("intent.authorize"), authorize("txn_1"), now()).is_err());
    assert_eq!(state_of(&s, "txn_1"), TransactionState::Completed);
}

#[test]
fn compat_runs_have_no_mandate() {
    let mut s = service();
    s.config.require_mandate = true;
    let given = input("intent.quote");
    let compat = IntentInput::for_compat(
        given.envelope,
        given.agent,
        given.tenant,
        given.request_id,
        given.trace_id,
    );
    let run = s.start_intent(compat).unwrap();
    assert!(matches!(run.waiting(), Waiting::Params));
    assert!(run.mandate().is_none());
    let params = Reply::Params(Ok(IntentParams::Quote(quote_params())), None);
    assert_eq!(finished(&mut s, run, params).transaction.state, TransactionState::Quoted);
}

#[test]
fn a_subscription_reserves_what_it_charges() {
    let mut s = service();
    let m = mandate(20_000);
    let step = s
        .begin_subscribe(
            &input("intent.subscribe"),
            subscribe(None),
            Some(&m),
            now(),
            "sub_1".into(),
            "txn_1".into(),
        )
        .unwrap();
    let pending = match step {
        SubscribeStep::Charge(p) => p,
        SubscribeStep::Enrolled(_) => panic!(),
    };
    let total = pending.charge.totals.total.as_ref().unwrap().amount_minor;
    assert_eq!(s.mandates.usage("m1").spent_minor, total);
    // The next one would pass the budget.
    assert!(matches!(
        s.begin_subscribe(
            &input("intent.subscribe"),
            subscribe(None),
            Some(&m),
            now(),
            "sub_2".into(),
            "txn_2".into(),
        ),
        Err(ApiError::MandateBudgetExceeded(_))
    ));
}

#[test]
fn only_the_requester_pays_a_peer_quote() {
    let mut s = service();
    s.do_a2a_quote(
        &input("intent.a2a_quote"),
        peer_quote("did:stateset:agent:b"),
        None,
        now(),
        "pq_1".into(),
        "txn_1".into(),
    )
    .unwrap();
    let mut other = input("intent.a2a_pay");
    other.agent = AgentIdentifier::parse("did:stateset:agent:c");
    other.envelope.agent_id = "did:stateset:agent:c".into();
    let mut params = peer_pay("pq_1");
    params.from = "did:stateset:agent:c".into();
    assert!(s.do_a2a_pay(&other, params, None, now(), "txn_2".into()).is_err());
    assert_eq!(s.peer_quotes.get("pq_1").unwrap().status, PeerQuoteStatus::Quoted);
}

#[test]
fn the_sweep_spares_what_moved_on() {
    let mut s = service();
    quoted(&mut s, "txn_1");
    s.do_authorize(&input("intent.authorize"), authorize("txn_1"), now()).unwrap();
    let (report, _) = s.tick_expiries(after(Span::seconds(100_000)));
    assert_eq!(report.transactions_expired, 0);
    assert_eq!(state_of(&s, "txn_1"), TransactionState::Authorized);
}

#[test]
fn intents_run_under_the_lock_of_their_row() {
    let i = input_for("t1", "intent.return", order_params("txn_1"));
    assert_eq!(
        lock_name_for(Intent::Return, &i, &IntentParams::Direct).as_deref(),
        Some("txn:txn_1")
    );
    assert_eq!(
        lock_name_for(Intent::Buy, &i, &IntentParams::Buy(buy("x"))).as_deref(),
        Some("txn:x")
    );
    assert_eq!(
        lock_name_for(
            Intent::Pause,
            &i,
            &IntentParams::SubscriptionRef(SubscriptionRefParams { subscription_id: "s".into() })
        )
        .as_deref(),
        Some("sub:s")
    );
    assert_eq!(lock_name_for(Intent::Quote, &i, &IntentParams::Quote(quote_params())), None);
}

#[test]
fn replies_out_of_turn_are_not_taken() {
    let mut s = service();
    let run = s.start_intent(input("intent.search")).unwrap();
    assert!(s
        .try_handle_intent(run, Reply::Engine(EngineReply::NoEngine), now(), ids())
        .is_none());
    let run = s.start_intent(input("intent.search")).unwrap();
    assert!(matches!(
        s.try_handle_intent(run, Reply::Params(Ok(IntentParams::Direct), None), now(), ids()),
        Some(Progress::Answered(_))
    ));
    let far = Timestamp::from_unix(stateset_icp_handler::time::MAX_SECS).unwrap();
    s.config.require_mandate = false;
    let run = s.start_intent(input("intent.quote")).unwrap();
    let params = Reply::Params(Ok(IntentParams::Quote(quote_params())), None);
    assert!(s.try_handle_intent(run, params, far, ids()).is_none());
}

#[test]
fn ticks_need_one_attempt_for_each_subscription() {
    let mut s = service();
    enrolled(&mut s, "sub_1");
    let failed = || RenewalAttempt {
        subscription_id: "sub_1".into(),
        charge: Err(ApiError::RateLimited),
    };
    assert!(s.can_tick(&vec![failed()], now()));
    assert!(!s.can_tick(&vec![failed(), failed()], now()));
    let unknown = RenewalAttempt {
        subscription_id: "sub_2".into(),
        charge: Err(ApiError::RateLimited),
    };
    assert!(!s.can_tick(&vec![unknown], now()));
}
