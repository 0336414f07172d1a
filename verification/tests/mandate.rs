use base64::engine::general_purpose::URL_SAFE_NO_PAD;
use base64::Engine;
use stateset_icp_handler::crypto::SecretSeed;
use stateset_icp_handler::errors::ApiError;
use stateset_icp_handler::mandate::{
    decode_unverified, evaluate, header_bytes, jurisdiction_authorizes, parse_period, payload_bytes,
    signature_request, verify_signature, MandateBudget, MandateEvaluation, MandateHeader,
    MandateLedger, MandatePayload, MandatePolicies, MandateSpendLimits, MandateTerms,
};
use stateset_icp_handler::resolver::{ResolveError, VerifyingKeyEntry};
use stateset_icp_handler::time::{Span, Timestamp};

fn now() -> Timestamp {
    Timestamp::from_unix(1_776_770_000).unwrap()
}

fn texts(list: &[&str]) -> Vec<String> {
    list.iter().map(|s| s.to_string()).collect()
}

fn payload_with(
    jti: &str,
    jurisdictions: Vec<String>,
    policies: MandatePolicies,
    scope: Vec<String>,
) -> MandatePayload {
    let secs = now().unix_seconds();
    MandatePayload {
        iss: "did:buyer:alice".into(),
        sub: "did:stateset:agent:a".into(),
        iat: secs - 60,
        nbf: secs - 60,
        exp: secs + 3600,
        jti: jti.into(),
        icp: MandateTerms {
            version: "2026-04-21".into(),
            scope,
            budget: MandateBudget {
                currency: "USD".into(),
                amount_minor: 10_000,
                per_transaction: None,
                period: Some("P1D".into()),
            },
            merchants: vec!["*".into()],
            categories: vec![],
            jurisdictions,
            policies,
            linked_payment_methods: vec![],
        },
    }
}

fn judge(
    payload: MandatePayload,
    scope: &str,
    amount: i64,
    jurisdiction: Option<&str>,
    ledger: &MandateLedger,
) -> Result<MandateEvaluation, ApiError> {
    evaluate(payload, "h.p.", scope, amount, now(), "merchant_demo", jurisdiction, ledger)
}

#[test]
fn evaluate_rejects_out_of_scope() {
    let payload = payload_with("m1", vec![], MandatePolicies::default(), texts(&["discover"]));
    let ledger = MandateLedger::new();
    let err = judge(payload, "buy", 1_000, None, &ledger).unwrap_err();
    assert!(matches!(err, ApiError::MandateOutOfScope(_)));
}

fn buy_payload(jurisdictions: &[&str], policies: MandatePolicies, scope: &[&str]) -> MandatePayload {
    payload_with("m_jur", texts(jurisdictions), policies, texts(scope))
}

#[test]
fn evaluate_enforces_jurisdiction() {
    let ledger = MandateLedger::new();
    let terms = || buy_payload(&["US", "CA"], MandatePolicies::default(), &["buy"]);

    assert!(judge(terms(), "buy", 1_000, Some("US-CA"), &ledger).is_ok());

    let err = judge(terms(), "buy", 1_000, Some("GB"), &ledger).unwrap_err();
    assert!(matches!(err, ApiError::MandateOutOfScope(_)));

    let err = judge(terms(), "buy", 1_000, None, &ledger).unwrap_err();
    assert!(matches!(err, ApiError::MandateOutOfScope(_)));
}

#[test]
fn jurisdiction_authorizes_country_over_subdivision() {
    assert!(jurisdiction_authorizes("US", "US-CA"));
    assert!(jurisdiction_authorizes("us", "US-CA"));
    assert!(jurisdiction_authorizes("US", "US"));
    assert!(jurisdiction_authorizes("US-CA", "US-CA"));
    assert!(!jurisdiction_authorizes("US-CA", "US"));
    assert!(!jurisdiction_authorizes("US", "GB"));
    assert!(!jurisdiction_authorizes("US", "CA"));
    assert!(!jurisdiction_authorizes("US-CA", "US-NY"));
}

#[test]
fn evaluate_wildcard_jurisdiction_allows_any() {
    let ledger = MandateLedger::new();
    let payload = buy_payload(&["*"], MandatePolicies::default(), &["buy"]);
    assert!(judge(payload, "buy", 1_000, Some("ZZ"), &ledger).is_ok());
}

#[test]
fn evaluate_enforces_prohibit_subscriptions_policy() {
    let ledger = MandateLedger::new();
    let policies = MandatePolicies {
        prohibit_subscriptions: true,
        ..Default::default()
    };
    let payload = buy_payload(&[], policies, &["subscribe"]);
    let err = judge(payload, "subscribe", 1_000, None, &ledger).unwrap_err();
    assert!(matches!(err, ApiError::MandateOutOfScope(_)));
}

#[test]
fn mandates_have_a_lifetime() {
    let ledger = MandateLedger::new();
    let mut early = buy_payload(&[], MandatePolicies::default(), &["buy"]);
    early.nbf = now().unix_seconds() + 1;
    assert!(matches!(
        judge(early, "buy", 1_000, None, &ledger),
        Err(ApiError::MandateInvalid(_))
    ));
    let mut late = buy_payload(&[], MandatePolicies::default(), &["buy"]);
    late.exp = now().unix_seconds() - 1;
    assert!(matches!(
        judge(late, "buy", 1_000, None, &ledger),
        Err(ApiError::MandateInvalid(_))
    ));
}

#[test]
fn budgets_bound_what_is_left_to_spend() {
    let mut ledger = MandateLedger::new();
    let terms = || buy_payload(&[], MandatePolicies::default(), &["buy"]);
    assert_eq!(judge(terms(), "buy", 1_000, None, &ledger).unwrap().spend_room_minor, 10_000);
    assert!(matches!(
        judge(terms(), "buy", 10_001, None, &ledger),
        Err(ApiError::MandateBudgetExceeded(_))
    ));
    ledger.record_spend("m_jur", "merchant_demo", 9_500, now());
    assert_eq!(judge(terms(), "buy", 500, None, &ledger).unwrap().spend_room_minor, 500);
    assert!(matches!(
        judge(terms(), "buy", 501, None, &ledger),
        Err(ApiError::MandateBudgetExceeded(_))
    ));
}

#[test]
fn single_charges_have_their_own_cap() {
    let ledger = MandateLedger::new();
    let mut terms = buy_payload(&[], MandatePolicies::default(), &["buy"]);
    terms.icp.budget.per_transaction = Some(2_000);
    assert!(matches!(
        judge(terms, "buy", 2_001, None, &ledger),
        Err(ApiError::MandateBudgetExceeded(_))
    ));
}

#[test]
fn merchants_are_matched() {
    let ledger = MandateLedger::new();
    let mut terms = buy_payload(&[], MandatePolicies::default(), &["buy"]);
    terms.icp.merchants = texts(&["someone_else"]);
    assert!(matches!(
        judge(terms, "buy", 1, None, &ledger),
        Err(ApiError::MandateOutOfScope(_))
    ));
}

#[test]
fn checked_spends_never_pass_the_budget() {
    let mut ledger = MandateLedger::in_memory();
    let limits = || MandateSpendLimits {
        budget_minor: 1_000,
        per_transaction: Some(700),
        window: Span::days(1),
    };
    // A refused first spend leaves no trace.
    assert!(ledger.try_record_spend_checked("m", "t", 701, now(), limits()).is_err());
    assert!(ledger.usage_for_tenant("m", "t").is_none());
    assert!(ledger.try_record_spend_checked("m", "t", 600, now(), limits()).is_ok());
    assert!(matches!(
        ledger.try_record_spend_checked("m", "t", 701, now(), limits()),
        Err(ApiError::MandateBudgetExceeded(_))
    ));
    assert!(matches!(
        ledger.try_record_spend_checked("m", "t", 401, now(), limits()),
        Err(ApiError::MandateBudgetExceeded(_))
    ));
    assert!(ledger.try_record_spend_checked("m", "t", 400, now(), limits()).is_ok());
    assert_eq!(ledger.usage("m").spent_minor, 1_000);
    // A new window starts from nothing.
    let tomorrow = now().checked_add(Span::days(2)).unwrap();
    assert!(ledger.try_record_spend_checked("m", "t", 700, tomorrow, limits()).is_ok());
    assert_eq!(ledger.usage("m").spent_minor, 700);
}

#[test]
fn usage_belongs_to_the_tenant_that_spent() {
    let mut ledger = MandateLedger::new();
    ledger.record_spend("m", "t1", 250, now());
    assert_eq!(ledger.usage_for_tenant("m", "t1").unwrap().spent_minor, 250);
    assert!(ledger.usage_for_tenant("m", "t2").is_none());
    assert!(ledger.usage_for_tenant("unknown", "t1").is_none());
}

#[test]
fn periods_are_days_hours_minutes_and_seconds() {
    let day = parse_period(Some("P1D")).unwrap();
    assert!(!day.longer_than(Span::days(1)) && !Span::days(1).longer_than(day));
    let hours = parse_period(Some("PT12H")).unwrap();
    assert!(!hours.longer_than(Span::hours(12)) && !Span::hours(12).longer_than(hours));
    assert!(parse_period(Some("monthly")).is_none());
    assert!(parse_period(None).is_none());
}

fn compact(header: &str, payload: &str, signature: &[u8]) -> String {
    format!(
        "{}.{}.{}",
        URL_SAFE_NO_PAD.encode(header),
        URL_SAFE_NO_PAD.encode(payload),
        URL_SAFE_NO_PAD.encode(signature)
    )
}

#[test]
fn compact_mandates_are_taken_apart() {
    let jws = compact("{\"alg\":\"EdDSA\"}", "{\"jti\":\"m\"}", &[0; 64]);
    assert_eq!(header_bytes(&jws).unwrap(), b"{\"alg\":\"EdDSA\"}");
    assert_eq!(payload_bytes(&jws).unwrap(), b"{\"jti\":\"m\"}");
    assert!(payload_bytes("only-one-part").is_err());
    assert!(payload_bytes("a.!!.c").is_err());
    assert!(decode_unverified("only-one-part", Err("x".into())).is_err());
    assert!(decode_unverified(&jws, Err("x".into())).is_err());
}

fn signed(seed: &SecretSeed) -> String {
    let unsigned = format!(
        "{}.{}",
        URL_SAFE_NO_PAD.encode("{\"alg\":\"EdDSA\"}"),
        URL_SAFE_NO_PAD.encode("{\"jti\":\"m\"}")
    );
    let signature = seed.sign(unsigned.as_bytes());
    format!("{unsigned}.{}", URL_SAFE_NO_PAD.encode(signature))
}

fn eddsa() -> MandateHeader {
    MandateHeader { alg: "EdDSA".into(), kid: None }
}

fn entry(seed: &SecretSeed) -> VerifyingKeyEntry {
    VerifyingKeyEntry { kid: None, alg: "EdDSA", key: seed.public() }
}

#[test]
fn signatures_are_checked_against_the_principals_keys() {
    let seed = SecretSeed::generate();
    let other = SecretSeed::generate();
    let jws = signed(&seed);
    let request = signature_request(&jws, Ok(eddsa())).unwrap();
    assert!(verify_signature(&request, Ok(vec![entry(&seed)])).is_ok());
    assert!(verify_signature(&request, Ok(vec![entry(&other), entry(&seed)])).is_ok());
    assert!(matches!(
        verify_signature(&request, Ok(vec![entry(&other)])),
        Err(ApiError::MandateInvalid(_))
    ));
    assert!(verify_signature(&request, Ok(vec![])).is_err());
    assert!(verify_signature(
        &request,
        Err(ResolveError::UnsupportedMethod("did:nope:x".into()))
    )
    .is_err());
}

#[test]
fn named_keys_decide_alone() {
    let seed = SecretSeed::generate();
    let other = SecretSeed::generate();
    let jws = signed(&seed);
    let named = MandateHeader { alg: "EdDSA".into(), kid: Some("k1".into()) };
    let request = signature_request(&jws, Ok(named)).unwrap();
    let under = |kid: &str, seed: &SecretSeed| VerifyingKeyEntry {
        kid: Some(kid.into()),
        alg: "EdDSA",
        key: seed.public(),
    };
    assert!(verify_signature(&request, Ok(vec![under("k1", &seed)])).is_ok());
    assert!(matches!(
        verify_signature(&request, Ok(vec![under("k1", &other), under("k2", &seed)])),
        Err(ApiError::MandateInvalid(_))
    ));
    // No key has that name, so any of them will do.
    assert!(verify_signature(&request, Ok(vec![under("k2", &seed)])).is_ok());
    assert!(verify_signature(&request, Ok(vec![entry(&seed)])).is_ok());
}

#[test]
fn only_eddsa_mandates_are_verified() {
    let seed = SecretSeed::generate();
    let jws = signed(&seed);
    let none = MandateHeader { alg: "none".into(), kid: None };
    assert!(matches!(
        signature_request(&jws, Ok(none)),
        Err(ApiError::MandateInvalid(_))
    ));
    let short = compact("{}", "{}", &[1, 2, 3]);
    assert!(signature_request(&short, Ok(eddsa())).is_err());
}

#[test]
fn a_verdict_on_the_signature_is_recorded() {
    let ledger = MandateLedger::new();
    let terms = || buy_payload(&[], MandatePolicies::default(), &["buy"]);
    let ev = judge(terms(), "buy", 1, None, &ledger).unwrap();
    assert!(!ev.signature_verified);
    assert!(ev.with_signature(Ok(())).unwrap().signature_verified);
    let ev = judge(terms(), "buy", 1, None, &ledger).unwrap();
    assert!(ev.with_signature(Err(ApiError::MandateInvalid("bad".into()))).is_err());
}

#[test]
fn mandates_are_independent() {
    let mut ledger = MandateLedger::new();
    ledger.record_spend("m_other", "merchant_demo", 9_999, now());
    let terms = buy_payload(&[], MandatePolicies::default(), &["buy"]);
    assert_eq!(judge(terms, "buy", 10_000, None, &ledger).unwrap().spend_room_minor, 10_000);
    assert_eq!(ledger.usage("m_jur").spent_minor, 0);
}
