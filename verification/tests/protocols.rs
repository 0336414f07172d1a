use base64::engine::general_purpose::{STANDARD, URL_SAFE_NO_PAD};
use base64::Engine;
use ed25519_dalek::SigningKey;
use stateset_icp_handler::agent::ApiKeyStore;
use stateset_icp_handler::commerce::{
    customer_for, discount_minor, is_postgres_url, local_part, non_empty, order_lines,
    persisted_total, product_texts, promotion_basket,
};
use stateset_icp_handler::compat::{acp, compat_input, transaction_params, ucp, CompatHeaders};
use stateset_icp_handler::config::Config;
use stateset_icp_handler::conformance::{
    check_claims, check_digest, check_discovery, check_health, check_jwks, check_live,
    check_missing_auth, check_quote, check_receipt, check_step, check_stored_receipt,
    check_stored_transaction, check_unknown_intent, unsigned_copy, Flaw, Verdict,
};
use stateset_icp_handler::decimal::{
    decimal_to_minor, minor_to_decimal, try_decimal_to_minor, DecimalParts,
};
use stateset_icp_handler::discovery::build;
use stateset_icp_handler::errors::ApiError;
use stateset_icp_handler::grpc::{
    api_error_to_status, authenticate_bearer, call_intent, extract_bearer_metadata, CallEnvelope,
    GrpcCode,
};
use stateset_icp_handler::handlers::ops::{health, BuildInfo};
use stateset_icp_handler::intent::Intent;
use stateset_icp_handler::json::{ArrayBuilder, Json, ObjectBuilder};
use stateset_icp_handler::mcp::{
    dispatch, prepare_tool_call, tool_catalog, tool_failure, JsonRpcRequest, RpcStep,
};
use stateset_icp_handler::models::{
    Buyer, IntentContext, IntentEnvelope, Money, PaymentInstrument, RequestItem, TransactionState,
};
use stateset_icp_handler::pricing::price_request_items;
use stateset_icp_handler::receipts::{ReceiptStore, StoredReceipt};
use stateset_icp_handler::service::IcpService;
use stateset_icp_handler::signing::{
    pem_to_der, receipt_claims, receipt_header_bytes, receipt_payload_bytes, JwsHeader,
    ReceiptSigner, SignedReceipt,
};
use stateset_icp_handler::time::Timestamp;

fn now() -> Timestamp {
    Timestamp::from_unix(1_776_770_000).unwrap()
}

const HEADER: &str = "{\"alg\":\"EdDSA\",\"typ\":\"JWT\",\"kid\":\"kid-1\"}";

const CLAIMS: &str = "{\"aud\":\"agent-1\",\"iat\":1776770000,\"icp\":{\"body_canonicalization\":\"jcs\",\
    \"body_digest\":\"sha256:44136fa355b3678a1146ad16f7e8649e94fb4fc21fe77e8310c060f61caaff8a\",\
    \"intent\":\"intent.quote\",\"mandate_jti\":\"m1\",\"transaction_id\":\"txn_1\",\
    \"version\":\"2026-04-21\"},\"iss\":\"https://handler.example\",\"jti\":\"rcpt_1\"}";

fn signed(signer: &ReceiptSigner, body: &[u8]) -> SignedReceipt {
    let claims = receipt_claims(
        "agent-1",
        "https://handler.example",
        "intent.quote",
        "txn_1",
        None,
        Some("m1"),
        body,
        now(),
        "rcpt_1".into(),
    );
    signer.sign_receipt(claims).unwrap()
}

fn header() -> JwsHeader {
    JwsHeader { alg: "EdDSA".into(), typ: "JWT".into(), kid: "kid-1".into() }
}

#[test]
fn signed_receipts_verify() {
    let signer = ReceiptSigner::generate("kid-1");
    let r = signed(&signer, b"{}");
    assert_eq!(r.kid, "kid-1");
    assert_eq!(r.claims.iat, now().unix_seconds());
    assert_eq!(r.claims.icp.body_canonicalization, "jcs");
    assert_eq!(receipt_header_bytes(&r.jws).unwrap(), HEADER.as_bytes());
    assert_eq!(receipt_payload_bytes(&r.jws).unwrap(), CLAIMS.as_bytes());
    let ok = signer.verify_receipt(&r.jws, Ok(signer.header()), Ok(r.claims.clone()), Some(b"{}"));
    assert!(ok.is_ok());
    let changed =
        signer.verify_receipt(&r.jws, Ok(signer.header()), Ok(r.claims.clone()), Some(b"{ }"));
    assert!(changed.is_err());
    let other = ReceiptSigner::generate("kid-1");
    assert!(other
        .verify_receipt(&r.jws, Ok(other.header()), Ok(r.claims.clone()), None)
        .is_err());
    assert!(signer
        .verify_receipt("a.b", Ok(header()), Ok(r.claims.clone()), None)
        .is_err());
    assert!(signer
        .verify_receipt(&r.jws, Err("bad".into()), Ok(r.claims.clone()), None)
        .is_err());
}

/// The PKCS #8 document of an Ed25519 seed: a version, the algorithm, and the seed in
/// two octet strings.
fn pkcs8(seed: &[u8; 32]) -> Vec<u8> {
    let mut document = vec![0x30, 46, 2, 1, 0, 0x30, 5, 6, 3, 0x2b, 0x65, 0x70, 4, 34, 4, 32];
    document.extend_from_slice(seed);
    document
}

fn pem_of(document: &[u8]) -> String {
    let label = ["PRIVATE", "KEY"].join(" ");
    let text = STANDARD.encode(document);
    format!("-----BEGIN {label}-----\n{text}\n-----END {label}-----\n")
}

#[test]
fn keys_are_loaded_from_pem() {
    let seed: [u8; 32] = std::array::from_fn(|i| i as u8);
    let document = pkcs8(&seed);
    let pem = pem_of(&document);
    assert_eq!(pem_to_der(&pem).unwrap(), document);
    let signer = ReceiptSigner::from_pkcs8_pem("kid-1", &pem).unwrap();
    assert_eq!(
        signer.verifying_key_bytes(),
        SigningKey::from_bytes(&seed).verifying_key().to_bytes()
    );
    assert!(ReceiptSigner::from_pkcs8_pem("kid-1", "nonsense").is_err());
    let jwk = signer.jwk();
    assert_eq!(jwk.get_str("kid"), Some("kid-1"));
    assert_eq!(
        jwk.get_str("x").unwrap(),
        URL_SAFE_NO_PAD.encode(signer.verifying_key_bytes())
    );
}

#[test]
fn receipts_are_kept_by_id() {
    let signer = ReceiptSigner::generate("kid-1");
    let r = signed(&signer, b"{}");
    let mut store = ReceiptStore::new();
    assert!(store.is_empty());
    store.insert(StoredReceipt {
        jti: r.jti.clone(),
        kid: r.kid.clone(),
        jws: r.jws.clone(),
        body_digest: r.body_digest.clone(),
        claims: r.claims.clone(),
    });
    assert_eq!(store.len(), 1);
    assert_eq!(store.get("rcpt_1").unwrap().jws, r.jws);
    assert!(store.get("rcpt_2").is_none());
    assert_eq!(store.list_recent(10).len(), 1);
    // A receipt under a known id takes the place of the one before.
    store.insert(StoredReceipt {
        jti: r.jti.clone(),
        kid: "kid-2".into(),
        jws: r.jws.clone(),
        body_digest: r.body_digest.clone(),
        claims: r.claims.clone(),
    });
    let recent = store.list_recent(10);
    assert_eq!((recent.len(), recent[0].kid.as_str()), (1, "kid-2"));
}

#[test]
fn discovery_advertises_live_intents() {
    let config = Config::for_test();
    let signer = ReceiptSigner::generate("kid-1");
    let d = build(&config, &signer);
    for name in &d.intents {
        assert!(Intent::parse(name).is_ok());
    }
    assert_eq!(d.signing_keys.len(), 1);
    assert_eq!(d.icp_version, config.icp_version);
}

fn rpc(method: &str) -> JsonRpcRequest {
    JsonRpcRequest {
        jsonrpc: "2.0".into(),
        id: Some(Json::Int(1)),
        method: method.into(),
        params: None,
    }
}

#[test]
fn tools_are_listed_and_called() {
    match dispatch(rpc("initialize"), "0.1.0") {
        RpcStep::Reply(r) => {
            assert_eq!(r.result.unwrap().get_str("protocolVersion"), Some("2024-11-05"));
        }
        RpcStep::CallTool(..) => panic!(),
    }
    match dispatch(rpc("tools/list"), "0.1.0") {
        RpcStep::Reply(r) => {
            let tools = r.result.unwrap();
            let n = tools.get("tools").unwrap().as_array().unwrap().len();
            assert_eq!(n, tool_catalog().len());
        }
        RpcStep::CallTool(..) => panic!(),
    }
    assert!(matches!(dispatch(rpc("tools/call"), "0.1.0"), RpcStep::CallTool(..)));
    match dispatch(rpc("nope"), "0.1.0") {
        RpcStep::Reply(r) => assert_eq!(r.error.unwrap().code, -32601),
        RpcStep::CallTool(..) => panic!(),
    }
}

#[test]
fn tool_calls_stay_with_the_tenant() {
    let keys = ApiKeyStore::demo();
    let arguments = ObjectBuilder::new().put_str("agent_id", "agent-1").build();
    let name = tool_catalog()[0].get_str("name").unwrap().to_string();
    let params = ObjectBuilder::new().put_str("name", &name).put("arguments", arguments).build();
    let (_, input) = prepare_tool_call(
        Some(params.copy()),
        Some("Bearer icp_demo_key_123"),
        &keys,
        now(),
        "req_1".into(),
    )
    .unwrap();
    assert_eq!(input.tenant.tenant_id, "merchant_demo");
    assert!(prepare_tool_call(Some(params), None, &keys, now(), "req_1".into()).is_err());
    for tool in tool_catalog() {
        let params = ObjectBuilder::new().put_str("name", tool.get_str("name").unwrap()).build();
        assert!(prepare_tool_call(
            Some(params),
            Some("Bearer icp_demo_key_123"),
            &keys,
            now(),
            "req_1".into()
        )
        .is_ok());
    }
    assert!(prepare_tool_call(None, Some("Bearer icp_demo_key_123"), &keys, now(), "r".into())
        .is_err());
    let failed = tool_failure("no", Json::Null);
    assert!(matches!(failed.get("isError"), Some(Json::Bool(true))));
}

fn compat_headers(version: &str) -> CompatHeaders {
    CompatHeaders {
        authorization: Some("Bearer icp_demo_key_123".into()),
        version: Some(version.into()),
        request_id: None,
        trace_parent: None,
    }
}

fn quoted_session(s: &mut IcpService, id: &str) {
    let ctx = acp::build_context(compat_headers("2025-09-29"), &ApiKeyStore::demo(), "req".into())
        .unwrap();
    let input = compat_input(ctx, "intent.quote", Json::Null, Some("USD".into()));
    assert!(input.skip_mandate_check);
    let params = acp::create_params(acp::CreateSessionBody {
        buyer: None,
        items: vec![acp::AcpItem { id: "SKU".into(), quantity: 2 }],
        fulfillment_address: None,
    })
    .unwrap();
    s.do_quote(&input, params, None, now(), id.into()).unwrap();
    s.stamp_external_ref(id, "acp_session", now());
}

#[test]
fn sessions_show_transactions() {
    let mut s = IcpService::new(Config::for_test(), ReceiptSigner::generate("kid-1"), 5);
    quoted_session(&mut s, "txn_1");
    let view = s.acp_session("txn_1").unwrap();
    assert_eq!(view.status, acp::status_for(TransactionState::Quoted));
    assert_eq!(view.line_items.len(), 1);
    assert_eq!(view.line_items[0].base_amount, 1_000);
    let checkout = s.ucp_checkout("txn_1").unwrap();
    assert_eq!(checkout.status, ucp::ucp_status_for(TransactionState::Quoted));
    assert!(matches!(s.acp_session("nope"), Err(ApiError::ResourceNotFound(_))));
    assert!(matches!(s.ucp_checkout("nope"), Err(ApiError::ResourceNotFound(_))));
}

#[test]
fn protocols_agree_on_the_end() {
    for state in [TransactionState::Completed, TransactionState::Canceled] {
        assert_eq!(acp::status_for(state), ucp::ucp_status_for(state));
    }
}

#[test]
fn compat_requests_are_checked() {
    let keys = ApiKeyStore::demo();
    assert!(acp::build_context(compat_headers("1999-01-01"), &keys, "r".into()).is_err());
    let mut anonymous = compat_headers("2025-09-29");
    anonymous.authorization = None;
    assert!(acp::build_context(anonymous, &keys, "r".into()).is_err());
    assert!(acp::create_params(acp::CreateSessionBody {
        buyer: None,
        items: vec![],
        fulfillment_address: None,
    })
    .is_err());
    let pay = acp::complete_params(
        "txn_1".into(),
        acp::CompleteSessionBody {
            buyer: None,
            payment_data: Some(acp::AcpPaymentData {
                token: "vt_1".into(),
                provider: Some("stripe".into()),
                billing_address: None,
            }),
        },
    );
    assert!(matches!(
        pay.payment,
        PaymentInstrument::DelegatedVault { token, .. } if token == "vt_1"
    ));
    assert_eq!(transaction_params("txn_1").get_str("transaction_id"), Some("txn_1"));
    let doc = ucp::discovery_document("https://h");
    assert!(doc.get("ucp").is_some());
}

#[test]
fn rpc_codes_follow_the_errors() {
    let pairs = [
        (ApiError::InvalidRequest("m".into()), GrpcCode::InvalidArgument, 3),
        (ApiError::AuthenticationFailed("m".into()), GrpcCode::Unauthenticated, 16),
        (ApiError::ResourceNotFound("m".into()), GrpcCode::NotFound, 5),
        (ApiError::RateLimited, GrpcCode::ResourceExhausted, 8),
        (ApiError::EngineUnavailable("m".into()), GrpcCode::Unavailable, 14),
        (ApiError::ProcessingError("m".into()), GrpcCode::Internal, 13),
    ];
    for (error, code, number) in pairs {
        let status = api_error_to_status(error);
        assert_eq!(status.code, code);
        assert_eq!(status.code.as_number(), number);
    }
}

#[test]
fn rpc_callers_are_identified() {
    let keys = ApiKeyStore::demo();
    assert_eq!(extract_bearer_metadata(Some("Bearer a"), None).as_deref(), Some("a"));
    assert_eq!(extract_bearer_metadata(None, Some("b")).as_deref(), Some("b"));
    assert_eq!(extract_bearer_metadata(None, None), None);
    let tenant = authenticate_bearer(Some("Bearer icp_demo_key_123"), None, &keys, now()).unwrap();
    assert!(authenticate_bearer(None, Some("nope"), &keys, now()).is_err());
    let envelope = || IntentEnvelope {
        intent: "intent.search".into(),
        intent_id: None,
        transaction_id: None,
        agent_id: "agent-1".into(),
        mandate_jti: None,
        params: Json::Null,
        context: IntentContext::default(),
    };
    let config = Config::for_test();
    let call = CallEnvelope {
        icp_version: "2026-04-21".into(),
        request_id: "".into(),
        agent_id: "agent-1".into(),
        mandate_jws: "".into(),
        trace_id: "".into(),
    };
    let input = call_intent(&config, tenant.clone(), Some(call), Ok(envelope()), "req_f".into())
        .unwrap();
    assert_eq!(input.request_id, "req_f");
    assert!(input.mandate_jws.is_none());
    assert!(call_intent(&config, tenant.clone(), None, Ok(envelope()), "r".into()).is_err());
}

#[test]
fn amounts_go_to_decimals_and_back() {
    let d = minor_to_decimal(12_345, "USD");
    assert_eq!(decimal_to_minor(d, "USD"), 12_345);
    assert_eq!(try_decimal_to_minor(DecimalParts { mantissa: 1_005, scale: 3 }, "USD"), Some(100));
    assert_eq!(try_decimal_to_minor(DecimalParts { mantissa: 1_015, scale: 3 }, "USD"), Some(102));
    assert_eq!(discount_minor(DecimalParts { mantissa: 25, scale: 1 }, "USD"), 250);
    assert_eq!(decimal_to_minor(minor_to_decimal(7, "JPY"), "JPY"), 7);
}

#[test]
fn baskets_are_handed_to_the_engine() {
    let items = vec![RequestItem {
        sku: "A".into(),
        quantity: 3,
        unit_price_hint: Some(Money::new(250, "USD")),
    }];
    let basket = promotion_basket(&items, "USD").unwrap();
    assert_eq!(basket.lines.len(), 1);
    assert_eq!(decimal_to_minor(basket.subtotal, "USD"), 750);
    let (lines, totals) = price_request_items(&items, "USD", "items").unwrap();
    let order = order_lines(&lines, "USD");
    assert_eq!((order[0].sku.as_str(), order[0].quantity), ("A", 3));
    assert_eq!(persisted_total(&totals, "USD").amount_minor, 815);
    assert!(is_postgres_url("postgres://x") && !is_postgres_url("./commerce.db"));
    assert_eq!(non_empty(Some("  ")), None);
    assert_eq!(non_empty(Some("a")).as_deref(), Some("a"));
    assert_eq!(local_part("ann@example.com"), Some("ann"));
    let (slug, _) = product_texts("SKU 1", "Name");
    assert!(slug.len() > 0);
}

#[test]
fn customers_need_an_email() {
    assert!(customer_for(&Buyer::default()).is_none());
    let buyer = Buyer { email: Some("ann@example.com".into()), ..Buyer::default() };
    let c = customer_for(&buyer).unwrap();
    assert_eq!(c.email, "ann@example.com");
    assert_eq!(c.first_name, "ann");
}

// ---------------------------------------------------------------------------
// Conformance
// ---------------------------------------------------------------------------

fn keys_document(signer: &ReceiptSigner) -> Json {
    ObjectBuilder::new().put("keys", ArrayBuilder::new().put(signer.jwk()).build()).build()
}

fn response(state: &str, receipt: Json) -> Json {
    let txn = ObjectBuilder::new().put_str("id", "txn_1").put_str("state", state).build();
    ObjectBuilder::new()
        .put_str("intent", "intent.quote")
        .put("transaction", txn)
        .put("receipt", receipt)
        .build()
}

fn receipt_of(r: &SignedReceipt) -> Json {
    ObjectBuilder::new()
        .put_str("jti", &r.jti)
        .put_str("kid", &r.kid)
        .put_str("jws", &r.jws)
        .put_str("body_digest", &r.body_digest)
        .build()
}

fn said(r: Result<(), Flaw>) -> String {
    match r {
        Err(Flaw::Said(m)) => m,
        Err(other) => format!("{other:?}"),
        Ok(()) => "ok".into(),
    }
}

#[test]
fn discovery_documents_are_judged() {
    let good = || {
        ObjectBuilder::new()
            .put_str("icp_version", "2026-04-21")
            .put("intents", ArrayBuilder::new().put_str("intent.search").build())
            .put("signing_keys", ArrayBuilder::new().put(Json::Null).build())
            .build()
    };
    assert_eq!(said(check_discovery(200, Some("2026-04-21"), &good())), "ok");
    assert_eq!(said(check_discovery(500, Some("2026-04-21"), &good())), "status 500");
    assert_eq!(
        said(check_discovery(200, None, &good())),
        "response missing ICP-Version header"
    );
    assert_eq!(
        said(check_discovery(200, Some("x"), &good())),
        "discovery body.icp_version `\"2026-04-21\"` != ICP-Version header `x`"
    );
    assert!(matches!(
        check_discovery(200, Some("x"), &Json::Null),
        Err(Flaw::Missing("icp_version"))
    ));
}

#[test]
fn key_sets_are_judged() {
    let signer = ReceiptSigner::generate("kid-1");
    assert_eq!(said(check_jwks(200, &keys_document(&signer))), "ok");
    assert_eq!(said(check_jwks(200, &Json::Null)), "jwks missing `keys` array");
    let short = ObjectBuilder::new()
        .put_str("alg", "EdDSA")
        .put_str("kid", "k")
        .put_str("x", "AAAA")
        .build();
    let doc = ObjectBuilder::new().put("keys", ArrayBuilder::new().put(short).build()).build();
    assert_eq!(said(check_jwks(200, &doc)), "keys[0].x does not decode to 32 bytes");
}

#[test]
fn health_reports_are_judged() {
    let build = BuildInfo { version: "1", git_sha: None, built_at: None };
    assert_eq!(said(check_health(200, &health(&build, &vec![]))), "ok");
    let ill = ObjectBuilder::new().put_str("status", "ill").build();
    assert_eq!(said(check_health(200, &ill)), "/health.status = ill");
    let odd = ObjectBuilder::new().put("status", Json::Int(1)).build();
    assert!(matches!(check_health(200, &odd), Err(Flaw::NotText("status"))));
}

#[test]
fn quotes_are_judged() {
    let signer = ReceiptSigner::generate("kid-1");
    let r = signed(&signer, b"{}");
    let good = response("quoted", receipt_of(&r));
    assert!(matches!(check_quote(200, &good, true), Verdict::Pass));
    let bad = response("draft", receipt_of(&r));
    assert!(matches!(check_quote(200, &bad, true), Verdict::Fail(_)));
    let error = ObjectBuilder::new().put_str("type", "mandate_invalid").build();
    let refused = ObjectBuilder::new().put("error", error).build();
    assert!(matches!(check_quote(401, &refused, false), Verdict::Skip));
    assert!(matches!(check_quote(401, &refused, true), Verdict::Fail(_)));
}

#[test]
fn receipts_are_judged() {
    let signer = ReceiptSigner::generate("kid-1");
    let r = signed(&signer, b"{}");
    let body = response("quoted", receipt_of(&r));
    assert_eq!(said(check_receipt(&keys_document(&signer), &body)), "ok");
    assert_eq!(said(check_digest(&body, b"{}")), "ok");
    assert!(said(check_digest(&body, b"{ }")).starts_with("body_digest mismatch: computed sha256:"));
    let other = ReceiptSigner::generate("kid-1");
    assert_eq!(
        said(check_receipt(&keys_document(&other), &body)),
        "signature verify: signature error"
    );
    let stranger = ReceiptSigner::generate("kid-2");
    assert_eq!(
        said(check_receipt(&keys_document(&stranger), &body)),
        "receipt kid `kid-1` not present in JWKS"
    );
    match &body {
        Json::Object(members) => {
            let blank = unsigned_copy(members);
            let stub = blank.get("receipt").unwrap();
            assert_eq!(stub.get_str("kid"), Some("kid-1"));
            assert_eq!(stub.get_str("jws"), Some(""));
            assert_eq!(blank.get_str("intent"), Some("intent.quote"));
        }
        _ => panic!(),
    }
}

#[test]
fn claims_are_judged() {
    let icp = ObjectBuilder::new()
        .put_str("version", "v")
        .put_str("intent", "i")
        .put_str("transaction_id", "t")
        .put_str("body_digest", "d")
        .put_str("body_canonicalization", "JCS")
        .build();
    let claims = ObjectBuilder::new()
        .put_str("iss", "h")
        .put_str("aud", "a")
        .put("iat", Json::Int(1))
        .put_str("jti", "r")
        .put("icp", icp)
        .build();
    assert_eq!(said(check_claims(&claims)), "ok");
    assert_eq!(said(check_claims(&Json::Null)), "receipt claims missing `iss`");
}

#[test]
fn refusals_are_judged() {
    let error = |t: &str| {
        let e = ObjectBuilder::new()
            .put_str("type", t)
            .put_str("code", t)
            .put_str("message", "m")
            .put("retriable", Json::Bool(false))
            .build();
        ObjectBuilder::new().put("error", e).build()
    };
    assert_eq!(said(check_unknown_intent(404, &error("intent_not_supported"))), "ok");
    assert_eq!(
        said(check_unknown_intent(400, &error("intent_not_supported"))),
        "expected 404, got 400"
    );
    assert_eq!(said(check_missing_auth(401, &error("authentication_failed"))), "ok");
    assert_eq!(
        said(check_missing_auth(401, &error("x"))),
        "expected authentication_failed, got x"
    );
    assert!(check_live("intent.buy", &error("intent_not_supported")).is_err());
    assert!(check_live("intent.buy", &error("invalid_request")).is_ok());
}

#[test]
fn reads_are_judged() {
    let body = response("authorized", Json::Null);
    assert_eq!(said(check_step(200, &body, "authorize ", "after authorize", "authorized")), "ok");
    assert!(matches!(
        check_step(200, &body, "buy ", "after buy", "completed"),
        Err(Flaw::WrongState("after buy", "completed"))
    ));
    assert_eq!(said(check_step(500, &body, "authorize ", "x", "y")), "authorize 500");
    let stored = ObjectBuilder::new()
        .put_str("jti", "rcpt_1")
        .put_str("jws", "a.b.c")
        .put_str("body_digest", "sha256:x")
        .build();
    assert_eq!(said(check_stored_receipt(200, &stored, "rcpt_1")), "ok");
    assert_eq!(
        said(check_stored_receipt(200, &stored, "rcpt_2")),
        "retrieved jti `rcpt_1` != expected `rcpt_2`"
    );
    let txn = ObjectBuilder::new().put_str("id", "txn_1").build();
    assert_eq!(said(check_stored_transaction(200, &txn, "txn_1")), "ok");
    assert_eq!(
        said(check_stored_transaction(200, &txn, "txn_2")),
        "retrieved id != expected `txn_2`"
    );
}
