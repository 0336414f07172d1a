use stateset_icp_handler::agent::{
    validate_api_keys, AgentIdKind, AgentIdentifier, ApiKeyInfo, ApiKeyStore,
};
use stateset_icp_handler::config::{parse_dunning_schedule, split_csv, Config};
use stateset_icp_handler::constants::headers::{ICP_AGENT_ID, ICP_RECEIPT};
use stateset_icp_handler::constants::ICP_VERSION;
use stateset_icp_handler::crypto::{body_sha256, fresh_id};
use stateset_icp_handler::errors::ApiError;
use stateset_icp_handler::intent::Intent;
use stateset_icp_handler::json::{ArrayBuilder, Json, ObjectBuilder};
use stateset_icp_handler::models::{minor_unit_scale, Money, TransactionState};
use stateset_icp_handler::startup::{any_origin, key_source, scheduler_interval, startup_failure, KeySource};
use stateset_icp_handler::state_db::{is_tolerable, migrations, pending_migrations};
use stateset_icp_handler::table::Table;
use stateset_icp_handler::time::{Span, Timestamp};

#[test]
fn errors_have_codes_and_statuses() {
    let all = [
        (ApiError::InvalidRequest("m".into()), "invalid_request", "invalid_request", 400, false),
        (
            ApiError::AuthenticationFailed("m".into()),
            "authentication_failed",
            "authentication_failed",
            401,
            false,
        ),
        (ApiError::MandateInvalid("m".into()), "mandate_invalid", "mandate_invalid", 401, false),
        (
            ApiError::MandateOutOfScope("m".into()),
            "mandate_out_of_scope",
            "mandate_out_of_scope",
            403,
            false,
        ),
        (
            ApiError::MandateBudgetExceeded("m".into()),
            "mandate_budget_exceeded",
            "mandate_budget_exceeded",
            402,
            false,
        ),
        (
            ApiError::IntentNotSupported("m".into()),
            "intent_not_supported",
            "intent_not_supported",
            404,
            false,
        ),
        (
            ApiError::ResourceNotFound("m".into()),
            "resource_not_found",
            "resource_not_found",
            404,
            false,
        ),
        (ApiError::Conflict("m".into()), "conflict", "conflict", 409, false),
        (
            ApiError::IdempotencyConflict("m".into()),
            "conflict",
            "idempotency_conflict",
            409,
            false,
        ),
        (
            ApiError::PreconditionFailed("m".into()),
            "precondition_failed",
            "precondition_failed",
            412,
            false,
        ),
        (ApiError::RateLimited, "rate_limited", "rate_limited", 429, true),
        (
            ApiError::EngineUnavailable("m".into()),
            "engine_unavailable",
            "engine_unavailable",
            503,
            true,
        ),
        (ApiError::ProcessingError("m".into()), "processing_error", "processing_error", 500, false),
    ];
    for (error, type_, code, status, retriable) in all {
        assert_eq!(error.code_and_status(), (type_, code, status));
        assert_eq!(error.retriable(), retriable, "{code}");
        let (s, body) = error.into_body_with_intent_id(Some("int_1".into()));
        assert_eq!(s, status);
        assert_eq!(body.error.code, code);
        assert_eq!(body.error.intent_id.as_deref(), Some("int_1"));
    }
    assert_eq!(ApiError::RateLimited.message(), "Rate limit exceeded.");
}

#[test]
fn intents_are_read_by_their_wire_names() {
    for intent in Intent::all_intents() {
        assert!(matches!(Intent::parse(intent.wire_name()), Ok(i) if i == intent));
        assert_eq!(format!("intent.{}", intent.short_wire_name()), intent.wire_name());
    }
    assert_eq!(Intent::all_intents().len(), 17);
    assert!(matches!(
        Intent::parse("intent.teleport"),
        Err(ApiError::IntentNotSupported(_))
    ));
    assert_eq!(Intent::Search.scope(), None);
    assert_eq!(Intent::A2aPay.scope(), Some("pay_peer"));
    assert!(!Intent::Track.is_state_change());
    assert!(Intent::Pause.is_state_change());
}

fn key(text: &str) -> ApiKeyInfo {
    ApiKeyInfo {
        key: text.into(),
        tenant_id: "t".into(),
        name: "n".into(),
        rate_limit_per_minute: None,
        allowed_agents: None,
        expires_at: None,
    }
}

#[test]
fn key_stores_find_keys() {
    let store = ApiKeyStore::demo();
    let info = store.lookup("icp_demo_key_123").unwrap();
    assert_eq!(info.tenant_id, "merchant_demo");
    assert_eq!(info.rate_limit_per_minute, Some(300));
    assert!(store.lookup("other").is_none());
    assert!(!store.is_empty());
    assert!(ApiKeyStore::new(vec![]).is_empty());
}

#[test]
fn key_lists_are_validated() {
    assert!(validate_api_keys(&vec![key("a"), key("b")]).is_ok());
    assert!(validate_api_keys(&vec![key("a"), key("a")]).is_err());
    assert!(validate_api_keys(&vec![key(" a")]).is_err());
    let mut blank = key("a");
    blank.name = "  ".into();
    assert!(ApiKeyStore::try_new(vec![blank]).is_err());
    let mut padded = key("a");
    padded.allowed_agents = Some(vec![" x".into()]);
    assert!(ApiKeyStore::try_new(vec![padded]).is_err());
    assert!(ApiKeyStore::try_new(vec![key("a")]).is_ok());
}

#[test]
fn keys_expire_and_name_their_agents() {
    let now = Timestamp::from_unix(1_000).unwrap();
    let mut k = key("a");
    assert!(!k.is_expired_at(now));
    k.expires_at = Some(now);
    assert!(k.is_expired_at(now));
    assert!(k.permits_agent("x"));
    k.allowed_agents = Some(vec!["x".into()]);
    assert!(k.permits_agent("x") && !k.permits_agent("y"));
    k.allowed_agents = Some(vec!["*".into()]);
    assert!(k.permits_agent("y"));
}

#[test]
fn agents_are_told_apart() {
    assert!(matches!(
        AgentIdentifier::parse("did:stateset:agent:a").kind,
        AgentIdKind::DidStateset
    ));
    assert!(matches!(AgentIdentifier::parse("did:key:z6").kind, AgentIdKind::DidKey));
    assert!(matches!(AgentIdentifier::parse("did:web:x").kind, AgentIdKind::DidWeb));
    assert!(matches!(
        AgentIdentifier::parse("https://x/agent").kind,
        AgentIdKind::HttpsProfile
    ));
    assert!(matches!(AgentIdentifier::parse("bot").kind, AgentIdKind::Opaque));
    assert_eq!(AgentIdentifier::parse("bot").raw, "bot");
}

fn env(pairs: &[(&str, &str)]) -> Table<String> {
    let mut t = Table::new();
    for (k, v) in pairs {
        t.insert(k.to_string(), v.to_string());
    }
    t
}

#[test]
fn settings_have_defaults() {
    let c = Config::load(&env(&[])).unwrap();
    assert_eq!((c.port, c.grpc_port), (8082, 50052));
    assert_eq!(c.icp_version, ICP_VERSION);
    assert!(c.require_mandate && !c.enable_demo_keys);
    assert_eq!(c.subscription_dunning_schedule_hours, vec![1, 6, 24]);
    assert_eq!(c.cors_allow_origins, vec!["*".to_string()]);
}

#[test]
fn settings_are_read_from_the_environment() {
    let c = Config::load(&env(&[
        ("PORT", "9000"),
        ("ICP_REQUIRE_MANDATE", "no"),
        ("ICP_CORS_ALLOW_ORIGINS", "https://a, https://b"),
        ("ICP_RATE_LIMIT_PER_MINUTE", "7"),
    ]))
    .unwrap();
    assert_eq!(c.port, 9000);
    assert!(!c.require_mandate);
    assert_eq!(c.cors_allow_origins, vec!["https://a".to_string(), "https://b".to_string()]);
    assert_eq!(c.rate_limit_per_minute, 7);
    assert!(Config::load(&env(&[("PORT", "70000")])).is_err());
    assert!(Config::load(&env(&[("PORT", "x")])).is_err());
}

#[test]
fn lists_are_split_at_commas() {
    assert_eq!(split_csv(" a,, b "), vec!["a".to_string(), "b".to_string()]);
    assert_eq!(parse_dunning_schedule("1, 6,x,24"), vec![1, 6, 24]);
    assert!(parse_dunning_schedule("").is_empty());
}

#[test]
fn startup_decisions_follow_the_settings() {
    let mut c = Config::for_test();
    c.enable_demo_keys = false;
    c.api_keys_json = None;
    c.api_keys_file = None;
    assert!(matches!(key_source(&c), KeySource::Empty));
    c.enable_demo_keys = true;
    assert!(matches!(key_source(&c), KeySource::Demo));
    c.api_keys_file = Some("keys.json".into());
    assert!(matches!(key_source(&c), KeySource::File(p) if p == "keys.json"));
    c.api_keys_json = Some("[]".into());
    assert!(matches!(key_source(&c), KeySource::Inline(t) if t == "[]"));

    c.production = false;
    assert_eq!(startup_failure(&c, "engine", "x"), None);
    c.production = true;
    assert_eq!(startup_failure(&c, "engine", "x").as_deref(), Some("engine: x"));

    c.subscription_scheduler_enabled = true;
    c.subscription_scheduler_interval_secs = 0;
    assert_eq!(scheduler_interval(&c), Some(1));
    c.subscription_scheduler_interval_secs = 60;
    assert_eq!(scheduler_interval(&c), Some(60));
    c.subscription_scheduler_enabled = false;
    assert_eq!(scheduler_interval(&c), None);

    assert!(any_origin(&vec!["https://a".into(), "*".into()]));
    assert!(!any_origin(&vec!["https://a".into()]));
}

#[test]
fn the_ladder_of_migrations_is_climbed_once() {
    let all: Vec<u32> = migrations().iter().map(|m| m.version).collect();
    assert_eq!(all, vec![1, 2, 3]);
    assert_eq!(pending_migrations(&vec![]).len(), 3);
    assert_eq!(pending_migrations(&all).len(), 0);
    let rest = pending_migrations(&vec![1, 3]);
    assert_eq!((rest.len(), rest[0].version, rest[0].name), (1, 2, "tenant_id_columns"));
    assert!(is_tolerable("error: duplicate column name: tenant_id"));
    assert!(is_tolerable("no such table: x"));
    assert!(!is_tolerable("disk full: no such table"));
}

#[test]
fn times_and_spans() {
    let t = Timestamp::from_parts(10, 999_999_999).unwrap();
    let u = t.checked_add(Span::seconds(-11)).unwrap();
    assert_eq!((u.unix_seconds(), u.subsec_nanos()), (-1, 999_999_999));
    assert!(u.before(&t) && u.at_or_before(&t) && !t.before(&t));
    assert!(t.since(&u).longer_than(Span::seconds(10)));
    assert!(Timestamp::from_unix(i64::MAX).is_none());
    assert!(Timestamp::from_parts(0, 1_000_000_000).is_none());
}

#[test]
fn digests_and_fresh_ids() {
    assert_eq!(
        body_sha256(b""),
        "e3b0c44298fc1c149afbf4c8996fb92427ae41e4649b934ca495991b7852b855"
    );
    let a = fresh_id("txn_");
    let b = fresh_id("txn_");
    assert!(a.starts_with("txn_") && a.len() == 36);
    assert_ne!(a, b);
}

#[test]
fn documents_are_built_and_read() {
    let doc = ObjectBuilder::new()
        .put_str("a", "x")
        .put("big", Json::UInt(u64::MAX))
        .put("flag", Json::Bool(true))
        .put("n", Json::Int(-3))
        .build();
    assert_eq!(doc.get_str("a"), Some("x"));
    assert_eq!(doc.get("n").and_then(|v| v.as_i64()), Some(-3));
    assert_eq!(doc.get("big").and_then(|v| v.as_i64()), None);
    assert!(doc.get("missing").is_none());
    assert_eq!(
        doc.to_text(),
        "{\"a\":\"x\",\"big\":18446744073709551615,\"flag\":true,\"n\":-3}"
    );
    assert!(ObjectBuilder::new().build().is_empty_object());
}

#[test]
fn documents_have_a_canonical_form() {
    let doc = ObjectBuilder::new()
        .put("b", ArrayBuilder::new().put(Json::Null).put(Json::Str("q\"".into())).build())
        .put("a", ObjectBuilder::new().put("z", Json::Int(1)).put("y", Json::Bool(false)).build())
        .put_some("none", None)
        .put_some("some", Some(Json::Int(2)))
        .build();
    assert_eq!(
        doc.to_canonical().unwrap(),
        b"{\"a\":{\"y\":false,\"z\":1},\"b\":[null,\"q\\\"\"],\"some\":2}"
    );
}

#[test]
fn money_and_currencies() {
    let m = Money::new(1_234, "USD");
    assert_eq!((m.amount_minor, m.currency.as_str()), (1_234, "USD"));
    assert_eq!(minor_unit_scale("USD"), 100);
    assert_eq!(minor_unit_scale("JPY"), 1);
    assert_eq!(minor_unit_scale("KWD"), 1_000);
}

#[test]
fn states_have_wire_names() {
    assert_eq!(TransactionState::Quoted.wire_name(), "quoted");
    assert!(TransactionState::Expired.is_terminal());
    assert!(!TransactionState::Authorized.is_terminal());
}

#[test]
fn header_names_are_lower_case() {
    assert_eq!(ICP_AGENT_ID, "icp-agent-id");
    assert_eq!(ICP_RECEIPT, "icp-receipt");
}
