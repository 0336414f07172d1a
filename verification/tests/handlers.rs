use stateset_icp_handler::agent::{ApiKeyInfo, ApiKeyStore};
use stateset_icp_handler::auth::{auth_failure, extract_bearer, AuthState};
use stateset_icp_handler::config::Config;
use stateset_icp_handler::errors::ApiError;
use stateset_icp_handler::events::{DeliveryStatus, Event};
use stateset_icp_handler::handlers::intents::{
    rate_limit_headers, reservation_refusal, response_headers, Submission, SubmitHeaders,
};
use stateset_icp_handler::idempotency::ReserveOutcome;
use stateset_icp_handler::handlers::ops::{health, ready, BuildInfo};
use stateset_icp_handler::handlers::queries::{
    parse_peer_quote_status_filter, parse_subscription_status_filter,
    parse_transaction_state_filter, ListReceiptsQuery, ListTransactionsQuery,
};
use stateset_icp_handler::handlers::webhook_admin::{
    parse_status_filter, CreateSubscriberBody, ListDeliveriesQuery, UpdateSubscriberBody,
};
use stateset_icp_handler::handlers::{
    client_ip_for_rate_limit, ensure_agent_allowed, receipt_headers, resolve_agent, resolve_tenant,
};
use stateset_icp_handler::json::{Json, ObjectBuilder};
use stateset_icp_handler::listing::{newest, page_limit};
use stateset_icp_handler::metrics::{
    record_expiry_tick, record_intent, record_subscription_scheduler_tick, record_webhook_tick,
    subscription_counts, MetricChange,
};
use stateset_icp_handler::models::{
    IntentContext, IntentEnvelope, PeerQuoteStatus, ReceiptStub, SubscriptionStatus,
    TransactionState,
};
use stateset_icp_handler::agent::AgentIdentifier;
use stateset_icp_handler::rate_limit::RateLimitDecision;
use stateset_icp_handler::service::expiry::ExpiryTickReport;
use stateset_icp_handler::service::{IcpService, IntentInput};
use stateset_icp_handler::signing::ReceiptSigner;
use stateset_icp_handler::time::{Span, Timestamp};
use stateset_icp_handler::webhook::{
    is_public_v4, is_public_v6, status_counts, validate_destination_url, RetryError,
};

fn now() -> Timestamp {
    Timestamp::from_unix(1_776_770_000).unwrap()
}

fn after(secs: i64) -> Timestamp {
    now().checked_add(Span::seconds(secs)).unwrap()
}

fn service() -> IcpService {
    let mut config = Config::for_test();
    config.webhook_url = None;
    config.allow_insecure_urls = false;
    config.rate_limit_per_minute = 2;
    config.pre_auth_rate_limit_per_minute = 100;
    IcpService::new(config, ReceiptSigner::generate("kid-1"), 5)
}

fn key(text: &str, tenant: &str) -> ApiKeyInfo {
    ApiKeyInfo {
        key: text.into(),
        tenant_id: tenant.into(),
        name: "n".into(),
        rate_limit_per_minute: None,
        allowed_agents: None,
        expires_at: None,
    }
}

fn keys() -> ApiKeyStore {
    let mut gone = key("old", "t1");
    gone.expires_at = Some(now());
    let mut narrow = key("narrow", "t1");
    narrow.allowed_agents = Some(vec!["agent-1".into()]);
    ApiKeyStore::new(vec![key("good", "t1"), gone, narrow])
}

#[test]
fn only_live_keys_authenticate() {
    let keys = keys();
    assert_eq!(resolve_tenant(Some("Bearer good"), &keys, now()).unwrap().tenant_id, "t1");
    for bad in [None, Some("good"), Some("Bearer nope"), Some("Bearer old")] {
        assert!(matches!(
            resolve_tenant(bad, &keys, now()),
            Err(ApiError::AuthenticationFailed(_))
        ));
    }
}

#[test]
fn agents_must_be_named_and_allowed() {
    assert!(resolve_agent(None).is_err());
    let agent = resolve_agent(Some("agent-1")).unwrap();
    assert_eq!(agent.raw, "agent-1");
    let keys = keys();
    let narrow = keys.lookup("narrow").unwrap();
    assert!(ensure_agent_allowed(&narrow, &agent).is_ok());
    let other = resolve_agent(Some("agent-2")).unwrap();
    assert!(ensure_agent_allowed(&narrow, &other).is_err());
}

#[test]
fn proxies_are_trusted_only_when_told_so() {
    assert_eq!(
        client_ip_for_rate_limit(Some("1.2.3.4, 5.6.7.8"), Some("9.9.9.9"), true),
        "1.2.3.4"
    );
    assert_eq!(client_ip_for_rate_limit(None, Some("9.9.9.9"), true), "9.9.9.9");
    assert_eq!(
        client_ip_for_rate_limit(Some("1.2.3.4"), None, false),
        client_ip_for_rate_limit(None, None, false)
    );
}

#[test]
fn receipts_are_found_in_bodies() {
    let receipt = ObjectBuilder::new().put_str("jws", "a.b.c").put_str("kid", "kid-1").build();
    let body = ObjectBuilder::new().put("receipt", receipt).build();
    assert_eq!(
        receipt_headers(&body),
        (Some("a.b.c".to_string()), Some("kid-1".to_string()))
    );
    assert_eq!(receipt_headers(&Json::Null), (None, None));
}

fn headers(bearer: &str) -> SubmitHeaders {
    SubmitHeaders {
        authorization: Some(format!("Bearer {bearer}")),
        agent_id: Some("agent-1".into()),
        version: Some("2026-04-21".into()),
        mandate: None,
        request_id: None,
        trace_id: None,
        idempotency_key: None,
        forwarded_for: None,
        real_ip: None,
    }
}

#[test]
fn submissions_are_opened_for_known_callers() {
    let mut s = service();
    let keys = keys();
    match s.open_submission(headers("good"), &keys, false, now(), "req_f".into()) {
        Submission::Open(o) => {
            assert_eq!(o.tenant.tenant_id, "t1");
            assert_eq!(o.agent.raw, "agent-1");
            assert_eq!(o.request_id, "req_f");
            assert!(o.limit_headers.len() > 0);
        }
        _ => panic!(),
    }
    assert!(matches!(
        s.open_submission(headers("nope"), &keys, false, now(), "req_f".into()),
        Submission::Refused(ApiError::AuthenticationFailed(_))
    ));
}

#[test]
fn submissions_name_their_version() {
    let mut s = service();
    s.config.require_icp_version = true;
    let keys = keys();
    let mut given = headers("good");
    given.version = None;
    match s.open_submission(given, &keys, false, now(), "r".into()) {
        Submission::Refused(e) => assert_eq!(e.message(), "ICP-Version header required"),
        _ => panic!(),
    }
    let mut given = headers("good");
    given.version = Some("1999-01-01".into());
    assert!(matches!(
        s.open_submission(given, &keys, false, now(), "r".into()),
        Submission::Refused(_)
    ));
}

#[test]
fn tenants_are_limited() {
    let mut s = service();
    let keys = keys();
    for _ in 0..2 {
        assert!(matches!(
            s.open_submission(headers("good"), &keys, false, now(), "r".into()),
            Submission::Open(_)
        ));
    }
    match s.open_submission(headers("good"), &keys, false, now(), "r".into()) {
        Submission::Limited(list) => assert!(list.len() > 0),
        _ => panic!(),
    }
}

#[test]
fn limits_and_receipts_are_told_in_headers() {
    let list = rate_limit_headers(
        RateLimitDecision::Denied { limit: 3, retry_after_secs: 20 },
        false,
    );
    assert!(list.iter().any(|h| h.name == "retry-after" && h.value == "20"));
    let stub = ReceiptStub {
        jti: "rcpt_1".into(),
        kid: "kid-1".into(),
        jws: "a.b.c".into(),
        body_digest: "sha256:x".into(),
    };
    let list = response_headers(&stub, true, &Some("key-1".to_string()));
    assert!(list.iter().any(|h| h.name == "icp-receipt" && h.value == "a.b.c"));
    let none = ReceiptStub {
        jti: "".into(),
        kid: "kid-1".into(),
        jws: "".into(),
        body_digest: "".into(),
    };
    let list = response_headers(&none, false, &None);
    assert!(!list.iter().any(|h| h.name == "icp-receipt"));
}

#[test]
fn bearer_tokens_and_agents_authenticate() {
    assert_eq!(extract_bearer(Some("Bearer abc")).unwrap(), "abc");
    assert!(extract_bearer(Some("Basic abc")).is_err());
    assert!(extract_bearer(None).is_err());
    let state = AuthState { keys: keys(), require_mandate: false };
    assert!(state.authenticate(Some("Bearer good"), Some("agent-1")).is_ok());
    assert!(state.authenticate(Some("Bearer good"), None).is_err());
    assert!(state.authenticate(Some("Bearer nope"), Some("agent-1")).is_err());
    let (status, body) = auth_failure("no");
    assert_eq!((status, body.error.message.as_str()), (401, "no"));
}

#[test]
fn filters_are_wire_names() {
    assert!(matches!(
        parse_transaction_state_filter("quoted"),
        Ok(TransactionState::Quoted)
    ));
    assert!(matches!(
        parse_transaction_state_filter("Quoted!"),
        Err(ApiError::InvalidRequest(_))
    ));
    assert!(matches!(
        parse_subscription_status_filter("past_due"),
        Ok(SubscriptionStatus::PastDue)
    ));
    assert!(parse_subscription_status_filter("x").is_err());
    assert!(parse_subscription_status_filter("trialing").is_err());
    assert!(matches!(
        parse_peer_quote_status_filter("accepted"),
        Ok(PeerQuoteStatus::Accepted)
    ));
    assert!(parse_peer_quote_status_filter("x").is_err());
    assert!(matches!(
        parse_status_filter("dead_lettered"),
        Ok(DeliveryStatus::DeadLettered)
    ));
    assert!(parse_status_filter("x").is_err());
}

fn input(tenant_id: &str) -> IntentInput {
    IntentInput::for_compat(
        IntentEnvelope {
            intent: "intent.search".into(),
            intent_id: None,
            transaction_id: None,
            agent_id: "agent-1".into(),
            mandate_jti: None,
            params: Json::Null,
            context: IntentContext::default(),
        },
        AgentIdentifier::parse("agent-1"),
        key("k", tenant_id),
        "req".into(),
        None,
    )
}

#[test]
fn pages_show_the_newest_of_the_tenant() {
    let mut s = service();
    s.do_search(&input("t1"), now(), "txn_1".into());
    s.do_search(&input("t1"), after(10), "txn_2".into());
    s.do_search(&input("t2"), after(20), "txn_3".into());
    let all = ListTransactionsQuery { state: None, limit: None };
    let page = s.list_transactions("t1", &all).unwrap();
    let ids: Vec<&str> = page.iter().map(|t| t.id.as_str()).collect();
    assert_eq!(ids, vec!["txn_2", "txn_1"]);
    let one = ListTransactionsQuery { state: Some("draft".into()), limit: Some(1) };
    assert_eq!(s.list_transactions("t1", &one).unwrap().len(), 1);
    let bad = ListTransactionsQuery { state: Some("nope".into()), limit: None };
    assert!(s.list_transactions("t1", &bad).is_err());
    assert!(s.get_transaction("t1", "txn_1").is_ok());
    assert!(matches!(
        s.get_transaction("t2", "txn_1"),
        Err(ApiError::ResourceNotFound(_))
    ));
    assert!(s.get_receipt("t1", "nope").is_err());
    assert_eq!(s.list_receipts("t1", &ListReceiptsQuery { intent: None, limit: None }).len(), 0);
    assert!(s.get_mandate_usage("t1", "nope").is_err());
}

#[test]
fn pages_have_limits() {
    assert_eq!(page_limit(None), 100);
    assert_eq!(page_limit(Some(7)), 7);
    assert_eq!(page_limit(Some(9_999)), 500);
    assert_eq!(newest(&vec![now(), after(5), after(2)], 2), vec![1, 2]);
}

#[test]
fn subscribers_are_managed() {
    let mut s = service();
    let body = CreateSubscriberBody { url: "https://a.example/hook".into(), secret: "s3cret".into() };
    let made = s.create_webhook_subscriber("t1", body, now(), "whs_1".into()).unwrap();
    assert!(made.active);
    assert!(matches!(
        s.create_webhook_subscriber(
            "t1",
            CreateSubscriberBody { url: "ftp://x".into(), secret: "s".into() },
            now(),
            "whs_2".into(),
        ),
        Err(ApiError::InvalidRequest(_))
    ));
    assert_eq!(s.list_webhook_subscribers("t1").len(), 1);
    assert_eq!(s.list_webhook_subscribers("t2").len(), 0);
    assert!(s.get_webhook_subscriber("t2", "whs_1").is_err());
    let off = s.set_webhook_subscriber_active("t1", "whs_1", false, after(1)).unwrap();
    assert!(!off.active);
    let on = s.set_webhook_subscriber_active("t1", "whs_1", true, after(2)).unwrap();
    assert!(on.active);
    let moved = s
        .update_webhook_subscriber(
            "t1",
            "whs_1",
            UpdateSubscriberBody { url: Some("https://b.example/".into()), secret: None },
            after(3),
        )
        .unwrap();
    assert_eq!(moved.url, "https://b.example/");
    assert!(s.delete_webhook_subscriber("t2", "whs_1").is_err());
    assert!(s.delete_webhook_subscriber("t1", "whs_1").is_ok());
    assert!(s.get_webhook_subscriber("t1", "whs_1").is_err());
}

fn event(id: &str) -> Event {
    Event {
        id: id.into(),
        event_type: "transaction.completed".into(),
        transaction_id: None,
        order_id: None,
        agent_id: None,
        occurred_at: now(),
        payload: Json::Null,
    }
}

#[test]
fn events_are_queued_for_subscribers_and_retried() {
    let mut s = service();
    let body = CreateSubscriberBody { url: "https://a.example/hook".into(), secret: "s3cret".into() };
    s.create_webhook_subscriber("t1", body, now(), "whs_1".into()).unwrap();
    s.enqueue_webhook(&event("evt_1"), Some("t1"), now());
    s.enqueue_webhook(&event("evt_2"), Some("t2"), now());
    assert_eq!(s.webhook_outbox.len(), 1);
    assert_eq!(status_counts(&s.webhook_outbox).pending, 1);
    let all = ListDeliveriesQuery { status: None, limit: None };
    let list = s.list_webhook_deliveries("t1", &all).unwrap();
    assert_eq!(list.len(), 1);
    let id = list[0].id.clone();
    assert_eq!(s.get_webhook_delivery("t1", &id).unwrap().event_id, "evt_1");
    assert!(s.get_webhook_delivery("t2", &id).is_err());
    // A pending delivery is not queued twice.
    assert!(matches!(
        s.retry_webhook_delivery("t1", &id, now()),
        Err(ApiError::Conflict(_)) | Err(ApiError::PreconditionFailed(_))
    ));
    s.webhook_outbox[0].status = DeliveryStatus::DeadLettered;
    let again = s.retry_webhook_delivery("t1", &id, after(5)).unwrap();
    assert!(matches!(again.status, DeliveryStatus::Pending));
    assert!(matches!(
        s.retry_webhook_delivery("t1", "nope", now()),
        Err(ApiError::ResourceNotFound(_))
    ));
    assert!(RetryError::AlreadyDelivered.message().len() > 0);
}

#[test]
fn destinations_are_checked() {
    assert!(validate_destination_url("https://a.example/hook", false).is_ok());
    assert!(validate_destination_url("http://a.example/hook", false).is_err());
    assert!(validate_destination_url("http://a.example/hook", true).is_ok());
    assert!(validate_destination_url("ftp://a", true).is_err());
}

#[test]
fn reports_are_documents() {
    let build = BuildInfo { version: "0.1.0", git_sha: None, built_at: Some("today") };
    let doc = health(&build, &vec![1, 2]);
    assert_eq!(doc.get_str("status"), Some("healthy"));
    assert_eq!(doc.get_str("git_sha"), Some("unknown"));
    assert_eq!(doc.get_str("built_at"), Some("today"));
    let schema = doc.get("state_schema").unwrap();
    assert_eq!(schema.get("applied").unwrap().as_array().unwrap().len(), 2);
    assert_eq!(schema.get("expected").unwrap().as_array().unwrap().len(), 3);
    assert_eq!(ready(true).get_str("status"), Some("ready"));
    assert_eq!(ready(false).get_str("engine"), Some("unavailable"));
}

#[test]
fn metrics_are_counted() {
    let list = record_intent("intent.buy", "ok");
    assert_eq!(list.len(), 1);
    assert_eq!(list[0].labels, vec!["intent.buy".to_string(), "ok".to_string()]);
    assert!(matches!(list[0].change, MetricChange::Add(1)));
    let s = service();
    let counts = subscription_counts(&s.subscriptions);
    assert_eq!(counts.active, 0);
    assert!(record_subscription_scheduler_tick(&counts).len() > 0);
    assert!(record_webhook_tick(&status_counts(&s.webhook_outbox)).len() > 0);
    let report = ExpiryTickReport { transactions_expired: 2, peer_quotes_expired: 0 };
    assert!(record_expiry_tick(&report)
        .iter()
        .any(|u| matches!(u.change, MetricChange::Add(2))));
}

#[test]
fn private_addresses_are_not_public() {
    for (a, b, c) in [
        (10, 1, 2),
        (127, 0, 0),
        (169, 254, 1),
        (172, 16, 0),
        (172, 31, 255),
        (192, 168, 1),
        (100, 64, 0),
        (0, 0, 0),
        (255, 255, 255),
        (203, 0, 113),
    ] {
        assert!(!is_public_v4(a, b, c), "{a}.{b}.{c}");
    }
    for (a, b, c) in [(8, 8, 8), (172, 15, 0), (172, 32, 0), (192, 169, 0), (100, 128, 0)] {
        assert!(is_public_v4(a, b, c), "{a}.{b}.{c}");
    }
    assert!(!is_public_v6(&[0, 0, 0, 0, 0, 0, 0, 1]));
    assert!(!is_public_v6(&[0xfd00, 0, 0, 0, 0, 0, 0, 1]));
    assert!(!is_public_v6(&[0xfe80, 0, 0, 0, 0, 0, 0, 1]));
    assert!(!is_public_v6(&[0, 0, 0, 0, 0, 0xffff, 0x7f00, 1]));
    assert!(is_public_v6(&[0, 0, 0, 0, 0, 0xffff, 0x0808, 0x0808]));
    assert!(is_public_v6(&[0x2606, 0x4700, 0, 0, 0, 0, 0, 0x1111]));
}

#[test]
fn reservations_refuse_conflicts() {
    assert!(matches!(
        reservation_refusal(&ReserveOutcome::Conflict),
        Some(ApiError::IdempotencyConflict(_))
    ));
    assert!(matches!(
        reservation_refusal(&ReserveOutcome::InProgress),
        Some(ApiError::Conflict(_))
    ));
    assert!(reservation_refusal(&ReserveOutcome::Won("t".into())).is_none());
}
