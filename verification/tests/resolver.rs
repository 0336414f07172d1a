use base64::engine::general_purpose::URL_SAFE_NO_PAD;
use base64::Engine;
use ed25519_dalek::SigningKey;
use rand::rngs::OsRng;
use stateset_icp_handler::crypto::{PublicKey, SecretSeed};
use stateset_icp_handler::resolver::{
    decode_did_key, encode_did_key, encode_multibase_key, parse_verification_methods,
    CompositeResolver, DidDocument, DidKeyResolver, DidWebResolver, Jwk, ResolveError, ResolveStep,
    VerificationMethod,
};
use stateset_icp_handler::time::{Span, Timestamp};

const MINUTE: u128 = 60_000_000_000;

fn now() -> Timestamp {
    Timestamp::from_unix(1_776_770_000).unwrap()
}

#[test]
fn did_key_round_trip() {
    let signing = SigningKey::generate(&mut OsRng);
    let verifying = signing.verifying_key();
    let key = PublicKey::from_bytes(verifying.to_bytes().to_vec()).unwrap();
    let did = encode_did_key(&key);
    assert!(did.starts_with("did:key:z"));

    let resolver = DidKeyResolver;
    let keys = resolver.resolve(&did).expect("resolve");
    assert_eq!(keys.len(), 1);
    assert_eq!(keys[0].key.to_bytes(), verifying.to_bytes());
    assert_eq!(keys[0].alg, "EdDSA");
}

#[test]
fn did_key_rejects_did_web() {
    let resolver = DidKeyResolver;
    assert!(matches!(
        resolver.resolve("did:web:example.com"),
        Err(ResolveError::UnsupportedMethod(_))
    ));
}

#[test]
fn did_web_url_construction() {
    let r = DidWebResolver::with_options("https", MINUTE);
    assert_eq!(
        r.url_for("did:web:example.com").unwrap(),
        "https://example.com/.well-known/did.json"
    );
    assert_eq!(
        r.url_for("did:web:example.com:users:alice").unwrap(),
        "https://example.com/users/alice/did.json"
    );
    assert_eq!(
        r.url_for("did:web:localhost%3A8080").unwrap(),
        "https://localhost:8080/.well-known/did.json"
    );
}

#[test]
fn composite_falls_through_unsupported_to_last_resolver() {
    let did = "did:nope:foo";
    let mut resolver = CompositeResolver::new();
    assert!(resolver.offer(DidKeyResolver.resolve(did)).is_none());
    let web = match DidWebResolver::new().begin(did, now()) {
        Err(e) => e,
        Ok(_) => panic!(),
    };
    assert!(resolver.offer(Err(web)).is_none());
    assert!(matches!(
        resolver.give_up(did),
        ResolveError::UnsupportedMethod(_)
    ));
}

#[test]
fn the_first_resolver_with_an_answer_decides() {
    let key = SecretSeed::generate().public();
    let did = encode_did_key(&key);
    let mut resolver = CompositeResolver::new();
    match resolver.offer(DidKeyResolver.resolve(&did)) {
        Some(keys) => assert_eq!(keys[0].key.to_bytes(), key.to_bytes()),
        None => panic!(),
    }
}

#[test]
fn a_failed_resolver_gives_way_to_the_next() {
    let key = SecretSeed::generate().public();
    let did = encode_did_key(&key);
    let mut resolver = CompositeResolver::new();
    assert!(resolver.offer(Err(ResolveError::MalformedDid("x".into()))).is_none());
    match resolver.offer(DidKeyResolver.resolve(&did)) {
        Some(keys) => assert_eq!(keys[0].key.to_bytes(), key.to_bytes()),
        None => panic!(),
    }
    // Where all of them fail, a failure says more than a method that is not supported.
    let mut resolver = CompositeResolver::new();
    assert!(resolver.offer(Err(ResolveError::UnsupportedMethod("did:x:1".into()))).is_none());
    assert!(resolver.offer(Err(ResolveError::MalformedDid("x".into()))).is_none());
    assert!(resolver.offer(Err(ResolveError::UnsupportedMethod("did:x:1".into()))).is_none());
    assert!(matches!(resolver.give_up(&did), ResolveError::MalformedDid(_)));
}

#[test]
fn malformed_keys_are_refused() {
    assert!(decode_did_key("zzz0").is_err());
    assert!(decode_did_key("fabc").is_err());
    assert!(matches!(
        DidKeyResolver.resolve("did:key:"),
        Err(ResolveError::MalformedDid(_)) | Err(ResolveError::KeyExtraction(_))
    ));
}

fn blank_method() -> VerificationMethod {
    VerificationMethod {
        id: None,
        type_: None,
        public_key_multibase: None,
        public_key_multibase_camel: None,
        public_key_jwk: None,
        public_key_jwk_camel: None,
    }
}

#[test]
fn documents_carry_keys_in_two_forms() {
    let a = SecretSeed::generate().public();
    let b = SecretSeed::generate().public();
    let mut multibase = blank_method();
    multibase.id = Some("did:web:x#a".into());
    multibase.public_key_multibase_camel = Some(encode_multibase_key(&a));
    let mut jwk = blank_method();
    jwk.id = Some("did:web:x#b".into());
    jwk.public_key_jwk_camel = Some(Jwk {
        kty: Some("OKP".into()),
        crv: Some("Ed25519".into()),
        x: Some(URL_SAFE_NO_PAD.encode(b.to_bytes())),
    });
    let doc = DidDocument {
        verification_method: vec![],
        verification_method_camel: vec![multibase, jwk],
    };
    let keys = parse_verification_methods(&doc, "did:web:x", "https://x").unwrap();
    assert_eq!(keys.len(), 2);
    assert_eq!(keys[0].key.to_bytes(), a.to_bytes());
    assert_eq!(keys[1].key.to_bytes(), b.to_bytes());
}

#[test]
fn methods_without_keys_are_passed_over() {
    let doc = DidDocument {
        verification_method: vec![blank_method()],
        verification_method_camel: vec![],
    };
    assert_eq!(parse_verification_methods(&doc, "did:web:x", "https://x").unwrap().len(), 0);
}

#[test]
fn fetched_keys_are_kept_for_a_while() {
    let key = SecretSeed::generate().public();
    let mut method = blank_method();
    method.public_key_multibase = Some(encode_multibase_key(&key));
    let doc = DidDocument {
        verification_method: vec![method],
        verification_method_camel: vec![],
    };
    let mut web = DidWebResolver::with_options("https", MINUTE);
    let did = "did:web:example.com";
    let url = match web.begin(did, now()).unwrap() {
        ResolveStep::Fetch { url, guarded } => {
            assert!(guarded);
            url
        }
        ResolveStep::Known(_) => panic!(),
    };
    assert_eq!(web.finish(did, &url, &doc, now()).unwrap().len(), 1);
    let soon = now().checked_add(Span::seconds(30)).unwrap();
    assert!(matches!(web.begin(did, soon), Ok(ResolveStep::Known(_))));
    let late = now().checked_add(Span::seconds(61)).unwrap();
    assert!(matches!(web.begin(did, late), Ok(ResolveStep::Fetch { .. })));
}

#[test]
fn errors_say_what_went_wrong() {
    assert_eq!(
        ResolveError::UnsupportedMethod("did:nope:x".into()).to_text(),
        "unsupported DID method: `did:nope:x`"
    );
}
