use stateset_icp_handler::idempotency::{
    CachedResponse, IdempotencyStore, LookupOutcome, ReserveOutcome,
};
use stateset_icp_handler::time::{Span, Timestamp};

fn now() -> Timestamp {
    Timestamp::from_unix(1_776_770_000).unwrap()
}

#[test]
fn miss_then_store_then_replay() {
    let mut store = IdempotencyStore::in_memory();
    let now = now();
    let digest = IdempotencyStore::digest_request(b"hello");

    let outcome = store.lookup("t1", "k1", &digest, now);
    assert!(matches!(outcome, LookupOutcome::Miss));

    let resp = CachedResponse {
        status: 200,
        body_json: b"{\"ok\":true}".to_vec(),
    };
    store.store("t1", "k1", &digest, resp.clone(), now, "");

    let outcome = store.lookup("t1", "k1", &digest, now);
    let LookupOutcome::Replay(body) = outcome else {
        panic!("expected Replay, got {outcome:?}");
    };
    assert_eq!(body.status, 200);
    assert_eq!(body.body_json, b"{\"ok\":true}");
}

#[test]
fn conflict_when_body_changes() {
    let mut store = IdempotencyStore::in_memory();
    let now = now();
    let d1 = IdempotencyStore::digest_request(b"first");
    let d2 = IdempotencyStore::digest_request(b"second");
    store.store(
        "t1",
        "same-key",
        &d1,
        CachedResponse {
            status: 200,
            body_json: b"{}".to_vec(),
        },
        now,
        "",
    );
    let outcome = store.lookup("t1", "same-key", &d2, now);
    assert!(matches!(outcome, LookupOutcome::Conflict));
}

#[test]
fn distinct_tenants_do_not_collide() {
    let mut store = IdempotencyStore::in_memory();
    let now = now();
    let d = IdempotencyStore::digest_request(b"x");
    store.store(
        "tenant_a",
        "k1",
        &d,
        CachedResponse {
            status: 200,
            body_json: b"a".to_vec(),
        },
        now,
        "",
    );
    let outcome = store.lookup("tenant_b", "k1", &d, now);
    assert!(matches!(outcome, LookupOutcome::Miss));
}

#[test]
fn ttl_eviction_treats_old_entries_as_miss() {
    let mut store = IdempotencyStore::in_memory().with_ttl(Span::seconds(1));
    let now = now();
    let d = IdempotencyStore::digest_request(b"x");
    store.store(
        "t",
        "k",
        &d,
        CachedResponse {
            status: 200,
            body_json: b"x".to_vec(),
        },
        now,
        "",
    );
    let later = now.checked_add(Span::seconds(2)).unwrap();
    let outcome = store.lookup("t", "k", &d, later);
    assert!(matches!(outcome, LookupOutcome::Miss));
}

#[test]
fn digests_are_sha256_in_hex() {
    assert_eq!(
        IdempotencyStore::digest_request(b"abc"),
        "ba7816bf8f01cfea414140de5dae2223b00361a396177a9cb410ff61f20015ad"
    );
}

#[test]
fn one_of_two_racing_requests_wins() {
    let mut store = IdempotencyStore::in_memory();
    let lease = Span::seconds(30);
    let token = match store.reserve("t", "k", "d", now(), lease) {
        ReserveOutcome::Won(t) => t,
        other => panic!("{other:?}"),
    };
    assert!(!token.is_empty());
    assert!(matches!(
        store.reserve("t", "k", "d", now(), lease),
        ReserveOutcome::InProgress
    ));
    assert!(matches!(
        store.reserve("t", "k", "other", now(), lease),
        ReserveOutcome::InProgress
    ));
    // A pending reservation is not a response yet.
    assert!(matches!(store.lookup("t", "k", "d", now()), LookupOutcome::Miss));
    let kept = store.store(
        "t",
        "k",
        "d",
        CachedResponse { status: 201, body_json: b"{}".to_vec() },
        now(),
        &token,
    );
    assert!(kept);
    match store.reserve("t", "k", "d", now(), lease) {
        ReserveOutcome::Replay(r) => assert_eq!(r.status, 201),
        other => panic!("{other:?}"),
    }
    assert!(matches!(
        store.reserve("t", "k", "other", now(), lease),
        ReserveOutcome::Conflict
    ));
}

#[test]
fn an_expired_lease_is_taken_over() {
    let mut store = IdempotencyStore::in_memory();
    let lease = Span::seconds(30);
    let first = match store.reserve("t", "k", "d", now(), lease) {
        ReserveOutcome::Won(t) => t,
        other => panic!("{other:?}"),
    };
    let later = now().checked_add(Span::seconds(31)).unwrap();
    let second = match store.reserve("t", "k", "d", later, lease) {
        ReserveOutcome::Won(t) => t,
        other => panic!("{other:?}"),
    };
    assert_ne!(first, second);
    // The loser can neither finish nor release what it no longer owns.
    let kept = store.store(
        "t",
        "k",
        "d",
        CachedResponse { status: 500, body_json: b"late".to_vec() },
        later,
        &first,
    );
    assert!(!kept);
    store.release("t", "k", &first);
    assert_eq!(store.len(), 1);
    store.release("t", "k", &second);
    assert!(store.is_empty());
}

#[test]
fn pruning_drops_what_is_past_its_time() {
    let mut store = IdempotencyStore::in_memory().with_ttl(Span::hours(1));
    let r = CachedResponse { status: 200, body_json: b"x".to_vec() };
    store.store("t", "old", "d", r.clone(), now(), "");
    let later = now().checked_add(Span::hours(2)).unwrap();
    store.store("t", "new", "d", r, later, "");
    assert_eq!(store.len(), 2);
    assert_eq!(store.prune(later), 1);
    assert_eq!(store.prune(later), 0);
    assert_eq!(store.len(), 1);
    assert!(matches!(store.lookup("t", "old", "d", later), LookupOutcome::Miss));
    assert!(matches!(store.lookup("t", "new", "d", later), LookupOutcome::Replay(_)));
}
