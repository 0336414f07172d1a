//! Answering a retried request with the response of the first one.
//!
//! For each pair of tenant and idempotency key the store keeps the digest of the
//! request and the response. A retry with the same digest gets that response
//! again, one with another digest is a conflict. Before a request is executed
//! its key is reserved, so that of several concurrent duplicates only one runs;
//! a reservation whose holder died can be taken over once its lease is over, and
//! a token keeps the holder that was superseded from writing.

use vstd::prelude::*;
use vstd::set_lib::lemma_set_difference_len;

use crate::crypto::{body_sha256, fresh_id, is_uuid_text, sha256_hex};
use crate::text::str_eq;
use crate::time::{Span, Timestamp};

verus! {

/// How long a response is kept, in hours.
pub const DEFAULT_TTL_HOURS: i64 = 24;

/// How often expired entries are swept, in seconds.
pub const DEFAULT_SWEEPER_INTERVAL_SECS: u64 = 3600;

/// The status that marks a reservation: no HTTP response has it.
const PENDING_STATUS: u16 = 0;

/// A response as it was sent.
#[derive(Debug)]
pub struct CachedResponse {
    pub status: u16,
    /// The canonical JSON body.
    pub body_json: Vec<u8>,
}

impl CachedResponse {
    /// Whether the two are the same response.
    pub open spec fn same_as(self, other: Self) -> bool {
        self.status == other.status && self.body_json@ == other.body_json@
    }
}

impl Clone for CachedResponse {
    fn clone(&self) -> (r: Self)
        ensures
            r.same_as(*self),
    {
        let body_json = self.body_json.clone();
        assert(body_json@ =~= self.body_json@);
        CachedResponse { status: self.status, body_json }
    }
}

/// What is known of a request that bears an idempotency key.
#[derive(Debug)]
pub enum LookupOutcome {
    /// Nothing; the request is processed normally.
    Miss,
    /// The response to the same request.
    Replay(CachedResponse),
    /// The key was used with another request.
    Conflict,
}

/// The effect of reserving a key.
#[derive(Debug)]
pub enum ReserveOutcome {
    /// The caller holds the key under the carried token and must execute the
    /// request.
    Won(String),
    /// The response to the same request.
    Replay(CachedResponse),
    /// The key was used with another request.
    Conflict,
    /// Another holder is executing the request right now.
    InProgress,
}

/// What is kept under a key.
#[derive(Debug)]
pub struct IdempotencyRow {
    pub request_digest: String,
    pub response: CachedResponse,
    pub created_at: Timestamp,
    /// The token of the reservation; empty once a response is stored.
    pub reservation_id: String,
}

/// The model of what is kept under a key.
pub struct RowView {
    pub digest: Seq<char>,
    pub status: u16,
    pub body: Seq<u8>,
    pub created_at: int,
    pub token: Seq<char>,
}

impl View for IdempotencyRow {
    type V = RowView;

    open spec fn view(&self) -> RowView {
        RowView {
            digest: self.request_digest@,
            status: self.response.status,
            body: self.response.body_json@,
            created_at: self.created_at@,
            token: self.reservation_id@,
        }
    }
}

/// The model of a [`LookupOutcome`].
pub enum LookupView {
    Miss,
    Replay(u16, Seq<u8>),
    Conflict,
}

impl View for LookupOutcome {
    type V = LookupView;

    open spec fn view(&self) -> LookupView {
        match self {
            LookupOutcome::Miss => LookupView::Miss,
            LookupOutcome::Replay(c) => LookupView::Replay(c.status, c.body_json@),
            LookupOutcome::Conflict => LookupView::Conflict,
        }
    }
}

/// The model of a [`ReserveOutcome`], before a token is chosen.
pub enum ReserveView {
    Claim,
    Replay(u16, Seq<u8>),
    Conflict,
    InProgress,
}

/// What to do about a reservation.
#[derive(Debug, Clone, Copy, PartialEq, Eq, Structural)]
pub enum ReserveDecision {
    Claim,
    Replay,
    Conflict,
    InProgress,
}

impl RowView {
    /// Whether the row is past its time to live.
    pub open spec fn expired(self, now: int, ttl: int) -> bool {
        now - self.created_at > ttl
    }

    /// Whether the row is a reservation.
    pub open spec fn pending(self) -> bool {
        self.status == 0
    }

    /// The row of a fresh reservation.
    pub open spec fn reservation(digest: Seq<char>, now: int, token: Seq<char>) -> RowView {
        RowView { digest, status: 0, body: Seq::empty(), created_at: now, token }
    }
}

/// What a lookup finds.
pub open spec fn lookup_result(row: Option<RowView>, digest: Seq<char>, now: int, ttl: int) -> LookupView {
    match row {
        None => LookupView::Miss,
        Some(r) => if r.expired(now, ttl) || r.pending() {
            LookupView::Miss
        } else if r.digest == digest {
            LookupView::Replay(r.status, r.body)
        } else {
            LookupView::Conflict
        },
    }
}

/// What a reservation meets: the key is claimed when it is free, when what is
/// kept under it expired, or when its holder outlived the lease.
pub open spec fn reserve_result(
    row: Option<RowView>,
    digest: Seq<char>,
    now: int,
    ttl: int,
    lease: int,
) -> ReserveView {
    match row {
        None => ReserveView::Claim,
        Some(r) => if r.expired(now, ttl) {
            ReserveView::Claim
        } else if r.pending() {
            if now - r.created_at > lease {
                ReserveView::Claim
            } else {
                ReserveView::InProgress
            }
        } else if r.digest == digest {
            ReserveView::Replay(r.status, r.body)
        } else {
            ReserveView::Conflict
        },
    }
}

/// The row of an optional row.
pub open spec fn opt_row(row: Option<&IdempotencyRow>) -> Option<RowView> {
    match row {
        Some(r) => Some(r@),
        None => None,
    }
}

/// What a lookup finds in the row of its key.
pub fn lookup_row(
    row: Option<&IdempotencyRow>,
    request_digest: &str,
    now: Timestamp,
    ttl: Span,
) -> (r: LookupOutcome)
    ensures
        r@ == lookup_result(opt_row(row), request_digest@, now@, ttl@),
{
    match row {
        None => LookupOutcome::Miss,
        Some(e) => {
            if now.since(&e.created_at).longer_than(ttl) {
                return LookupOutcome::Miss;
            }
            if e.response.status == PENDING_STATUS {
                return LookupOutcome::Miss;
            }
            if str_eq(e.request_digest.as_str(), request_digest) {
                LookupOutcome::Replay(e.response.clone())
            } else {
                LookupOutcome::Conflict
            }
        },
    }
}

/// What a reservation meets in the row of its key.
pub fn decide_reservation(
    row: Option<&IdempotencyRow>,
    request_digest: &str,
    now: Timestamp,
    ttl: Span,
    lease: Span,
) -> (d: ReserveDecision)
    ensures
        match d {
            ReserveDecision::Claim => reserve_result(
                opt_row(row),
                request_digest@,
                now@,
                ttl@,
                lease@,
            ) is Claim,
            ReserveDecision::Replay => row matches Some(e) && reserve_result(
                opt_row(row),
                request_digest@,
                now@,
                ttl@,
                lease@,
            ) == ReserveView::Replay(e.response.status, e.response.body_json@),
            ReserveDecision::Conflict => reserve_result(
                opt_row(row),
                request_digest@,
                now@,
                ttl@,
                lease@,
            ) is Conflict,
            ReserveDecision::InProgress => reserve_result(
                opt_row(row),
                request_digest@,
                now@,
                ttl@,
                lease@,
            ) is InProgress,
        },
{
    match row {
        None => ReserveDecision::Claim,
        Some(e) => {
            let age = now.since(&e.created_at);
            if age.longer_than(ttl) {
                ReserveDecision::Claim
            } else if e.response.status == PENDING_STATUS {
                if age.longer_than(lease) {
                    ReserveDecision::Claim
                } else {
                    ReserveDecision::InProgress
                }
            } else if str_eq(e.request_digest.as_str(), request_digest) {
                ReserveDecision::Replay
            } else {
                ReserveDecision::Conflict
            }
        },
    }
}

// ---------------------------------------------------------------------------
// The store
// ---------------------------------------------------------------------------

#[derive(Debug)]
struct Slot {
    tenant: String,
    key: String,
    row: IdempotencyRow,
}

spec fn slot_is(s: Seq<Slot>, i: int, k: (Seq<char>, Seq<char>)) -> bool {
    0 <= i < s.len() && (s[i].tenant@, s[i].key@) == k
}

spec fn distinct_slots(s: Seq<Slot>) -> bool {
    forall|i: int, j: int|
        0 <= i < j < s.len() ==> ((#[trigger] s[i]).tenant@, s[i].key@) != (
            (#[trigger] s[j]).tenant@,
            s[j].key@,
        )
}

spec fn rows_of(s: Seq<Slot>) -> Map<(Seq<char>, Seq<char>), RowView>
    decreases s.len(),
{
    if s.len() == 0 {
        Map::empty()
    } else {
        rows_of(s.drop_last()).insert((s.last().tenant@, s.last().key@), s.last().row@)
    }
}

proof fn lemma_rows_keys(s: Seq<Slot>, k: (Seq<char>, Seq<char>))
    ensures
        rows_of(s).contains_key(k) <==> exists|i: int| slot_is(s, i, k),
    decreases s.len(),
{
    if s.len() > 0 {
        lemma_rows_keys(s.drop_last(), k);
        if exists|i: int| slot_is(s, i, k) {
            let i = choose|i: int| slot_is(s, i, k);
            if i < s.len() - 1 {
                assert(slot_is(s.drop_last(), i, k));
            }
        }
        if (s.last().tenant@, s.last().key@) == k {
            assert(slot_is(s, s.len() - 1, k));
        }
        if exists|i: int| slot_is(s.drop_last(), i, k) {
            let i = choose|i: int| slot_is(s.drop_last(), i, k);
            assert(slot_is(s, i, k));
        }
    }
}

proof fn lemma_rows_value(s: Seq<Slot>, i: int)
    requires
        distinct_slots(s),
        0 <= i < s.len(),
    ensures
        rows_of(s).contains_key((s[i].tenant@, s[i].key@)),
        rows_of(s)[(s[i].tenant@, s[i].key@)] == s[i].row@,
    decreases s.len(),
{
    if i < s.len() - 1 {
        assert(s.drop_last()[i] == s[i]);
        lemma_rows_value(s.drop_last(), i);
        assert((s[i].tenant@, s[i].key@) != (s[s.len() - 1].tenant@, s[s.len() - 1].key@));
    }
}

proof fn lemma_rows_len(s: Seq<Slot>)
    requires
        distinct_slots(s),
    ensures
        rows_of(s).dom().finite(),
        rows_of(s).dom().len() == s.len(),
    decreases s.len(),
{
    if s.len() > 0 {
        lemma_rows_len(s.drop_last());
        let k = (s.last().tenant@, s.last().key@);
        lemma_rows_keys(s.drop_last(), k);
        assert(!rows_of(s.drop_last()).contains_key(k)) by {
            if exists|i: int| slot_is(s.drop_last(), i, k) {
                let i = choose|i: int| slot_is(s.drop_last(), i, k);
                assert((s[i].tenant@, s[i].key@) == (
                    s[s.len() - 1].tenant@,
                    s[s.len() - 1].key@,
                ));
            }
        }
    } else {
        assert(rows_of(s).dom() =~= Set::empty());
    }
}

proof fn lemma_rows_remove(s: Seq<Slot>, i: int)
    requires
        distinct_slots(s),
        0 <= i < s.len(),
    ensures
        distinct_slots(s.remove(i)),
        rows_of(s.remove(i)) == rows_of(s).remove((s[i].tenant@, s[i].key@)),
{
    let t = s.remove(i);
    let k = (s[i].tenant@, s[i].key@);
    assert forall|q: (Seq<char>, Seq<char>)| #[trigger]
        rows_of(t).contains_key(q) == rows_of(s).remove(k).contains_key(q) by {
        lemma_rows_keys(t, q);
        lemma_rows_keys(s, q);
        if exists|j: int| slot_is(t, j, q) {
            let j = choose|j: int| slot_is(t, j, q);
            let m = if j < i {
                j
            } else {
                j + 1
            };
            assert(t[j] == s[m]);
            assert(slot_is(s, m, q));
        }
        if q != k && exists|j: int| slot_is(s, j, q) {
            let j = choose|j: int| slot_is(s, j, q);
            let m = if j < i {
                j
            } else {
                j - 1
            };
            assert(t[m] == s[j]);
            assert(slot_is(t, m, q));
        }
    }
    assert forall|q: (Seq<char>, Seq<char>)| #[trigger]
        rows_of(t).contains_key(q) implies rows_of(t)[q] == rows_of(s).remove(k)[q] by {
        lemma_rows_keys(t, q);
        let j = choose|j: int| slot_is(t, j, q);
        let m = if j < i {
            j
        } else {
            j + 1
        };
        assert(t[j] == s[m]);
        lemma_rows_value(t, j);
        lemma_rows_value(s, m);
    }
    assert(rows_of(t) =~= rows_of(s).remove(k));
}

/// Responses by tenant and idempotency key, kept in this process.
#[derive(Debug)]
pub struct IdempotencyStore {
    slots: Vec<Slot>,
    ttl: Span,
}

impl View for IdempotencyStore {
    type V = Map<(Seq<char>, Seq<char>), RowView>;

    closed spec fn view(&self) -> Map<(Seq<char>, Seq<char>), RowView> {
        rows_of(self.slots@)
    }
}

/// What is kept under a key.
pub open spec fn row_at(
    store: Map<(Seq<char>, Seq<char>), RowView>,
    tenant: Seq<char>,
    key: Seq<char>,
) -> Option<RowView> {
    if store.contains_key((tenant, key)) {
        Some(store[(tenant, key)])
    } else {
        None
    }
}

/// The store after a reservation was given up: the key is free when it holds a
/// reservation under this token, and nothing changes otherwise.
pub open spec fn released(
    store: Map<(Seq<char>, Seq<char>), RowView>,
    tenant: Seq<char>,
    key: Seq<char>,
    token: Seq<char>,
) -> Map<(Seq<char>, Seq<char>), RowView> {
    if row_at(store, tenant, key) matches Some(row) && row.pending() && row.token == token {
        store.remove((tenant, key))
    } else {
        store
    }
}

/// Whether a holder with this token may store its response: the key is free, or
/// held under this token.
pub open spec fn may_store(
    store: Map<(Seq<char>, Seq<char>), RowView>,
    tenant: Seq<char>,
    key: Seq<char>,
    token: Seq<char>,
) -> bool {
    row_at(store, tenant, key) matches Some(row) ==> row.token == token
}

/// What keeping a response does: it replaces the reservation of its own token, or stands
/// where nothing stood; where another token holds the key it is not kept.
pub open spec fn stored(
    before: Map<(Seq<char>, Seq<char>), RowView>,
    after: Map<(Seq<char>, Seq<char>), RowView>,
    tenant: Seq<char>,
    key: Seq<char>,
    digest: Seq<char>,
    response: CachedResponse,
    now: int,
    token: Seq<char>,
    kept: bool,
) -> bool {
    &&& kept == may_store(before, tenant, key, token)
    &&& after == (if kept {
        before.insert(
            (tenant, key),
            RowView {
                digest,
                status: response.status,
                body: response.body_json@,
                created_at: now,
                token: Seq::empty(),
            },
        )
    } else {
        before
    })
}

/// What reserving a key with this token does.
pub open spec fn reserved(
    before: Map<(Seq<char>, Seq<char>), RowView>,
    after: Map<(Seq<char>, Seq<char>), RowView>,
    tenant: Seq<char>,
    key: Seq<char>,
    digest: Seq<char>,
    now: int,
    ttl: int,
    lease: int,
    token: String,
    r: ReserveOutcome,
) -> bool {
    match reserve_result(row_at(before, tenant, key), digest, now, ttl, lease) {
        ReserveView::Claim => {
            &&& r == ReserveOutcome::Won(token)
            &&& after == before.insert(
                (tenant, key),
                RowView::reservation(digest, now, token@),
            )
        },
        ReserveView::Replay(status, body) => {
            &&& r matches ReserveOutcome::Replay(c) && c.status == status && c.body_json@ == body
            &&& after == before
        },
        ReserveView::Conflict => r is Conflict && after == before,
        ReserveView::InProgress => r is InProgress && after == before,
    }
}

/// The keys whose rows are past their time to live.
pub open spec fn expired_keys(
    store: Map<(Seq<char>, Seq<char>), RowView>,
    now: int,
    ttl: int,
) -> Set<(Seq<char>, Seq<char>)> {
    store.dom().filter(|k: (Seq<char>, Seq<char>)| store[k].expired(now, ttl))
}

/// The store without the rows that are past their time to live.
pub open spec fn pruned(
    store: Map<(Seq<char>, Seq<char>), RowView>,
    now: int,
    ttl: int,
) -> Map<(Seq<char>, Seq<char>), RowView> {
    store.remove_keys(expired_keys(store, now, ttl))
}

impl Default for IdempotencyStore {
    fn default() -> (r: Self)
        ensures
            r@ == Map::<(Seq<char>, Seq<char>), RowView>::empty(),
            r.time_to_live() == 86_400_000_000_000,
    {
        IdempotencyStore::in_memory()
    }
}

impl IdempotencyStore {
    #[verifier::type_invariant]
    spec fn inv(self) -> bool {
        distinct_slots(self.slots@)
    }

    /// How long a response is kept, in nanoseconds.
    pub closed spec fn time_to_live(&self) -> int {
        self.ttl@
    }

    /// An empty store that keeps responses for a day.
    pub fn in_memory() -> (r: IdempotencyStore)
        ensures
            r@ == Map::<(Seq<char>, Seq<char>), RowView>::empty(),
            r.time_to_live() == 86_400_000_000_000,
    {
        IdempotencyStore { slots: Vec::new(), ttl: Span::hours(DEFAULT_TTL_HOURS) }
    }

    /// The store with another time to live.
    pub fn with_ttl(self, ttl: Span) -> (r: IdempotencyStore)
        ensures
            r@ == self@,
            r.time_to_live() == ttl@,
    {
        proof {
            use_type_invariant(&self);
        }
        IdempotencyStore { slots: self.slots, ttl }
    }

    /// The SHA-256 digest of a canonical request, in hexadecimal.
    pub fn digest_request(canonical_body: &[u8]) -> (r: String)
        ensures
            r@ == sha256_hex(canonical_body@),
    {
        body_sha256(canonical_body)
    }

    fn position(&self, tenant_id: &str, idempotency_key: &str) -> (r: Option<usize>)
        ensures
            match r {
                Some(i) => i < self.slots@.len() && self.slots@[i as int].tenant@ == tenant_id@
                    && self.slots@[i as int].key@ == idempotency_key@ && row_at(
                    self@,
                    tenant_id@,
                    idempotency_key@,
                ) == Some(self.slots@[i as int].row@),
                None => row_at(self@, tenant_id@, idempotency_key@) is None && forall|j: int|
                    0 <= j < self.slots@.len() ==> ((#[trigger] self.slots@[j]).tenant@,
                        self.slots@[j].key@) != (tenant_id@, idempotency_key@),
            },
    {
        proof {
            use_type_invariant(self);
        }
        let mut i: usize = 0;
        while i < self.slots.len()
            invariant
                i <= self.slots@.len(),
                distinct_slots(self.slots@),
                forall|j: int|
                    0 <= j < i ==> ((#[trigger] self.slots@[j]).tenant@, self.slots@[j].key@) != (
                        tenant_id@,
                        idempotency_key@,
                    ),
            decreases self.slots@.len() - i,
        {
            if str_eq(self.slots[i].tenant.as_str(), tenant_id) && str_eq(
                self.slots[i].key.as_str(),
                idempotency_key,
            ) {
                proof {
                    lemma_rows_value(self.slots@, i as int);
                }
                return Some(i);
            }
            i += 1;
        }
        proof {
            lemma_rows_keys(self.slots@, (tenant_id@, idempotency_key@));
        }
        None
    }

    fn remove(&mut self, tenant_id: &str, idempotency_key: &str)
        ensures
            final(self)@ == old(self)@.remove((tenant_id@, idempotency_key@)),
            final(self).time_to_live() == old(self).time_to_live(),
    {
        proof {
            use_type_invariant(&*self);
        }
        match self.position(tenant_id, idempotency_key) {
            Some(i) => {
                let ghost before = self.slots@;
                let mut slots: Vec<Slot> = Vec::new();
                std::mem::swap(&mut slots, &mut self.slots);
                proof {
                    lemma_rows_remove(before, i as int);
                }
                slots.remove(i);
                self.slots = slots;
            },
            None => {
                assert(self@.remove((tenant_id@, idempotency_key@)) =~= self@);
            },
        }
    }

    fn put(&mut self, tenant_id: &str, idempotency_key: &str, row: IdempotencyRow)
        ensures
            final(self)@ == old(self)@.insert((tenant_id@, idempotency_key@), row@),
            final(self).time_to_live() == old(self).time_to_live(),
    {
        self.remove(tenant_id, idempotency_key);
        proof {
            use_type_invariant(&*self);
            lemma_rows_keys(self.slots@, (tenant_id@, idempotency_key@));
            assert forall|j: int| 0 <= j < self.slots@.len() implies (
            (#[trigger] self.slots@[j]).tenant@, self.slots@[j].key@) != (
                tenant_id@,
                idempotency_key@,
            ) by {
                if (self.slots@[j].tenant@, self.slots@[j].key@) == (
                    tenant_id@,
                    idempotency_key@,
                ) {
                    assert(slot_is(self.slots@, j, (tenant_id@, idempotency_key@)));
                }
            }
        }
        let ghost before = self.slots@;
        let mut slots: Vec<Slot> = Vec::new();
        std::mem::swap(&mut slots, &mut self.slots);
        slots.push(
            Slot { tenant: String::from_str(tenant_id), key: String::from_str(idempotency_key), row },
        );
        assert(slots@.drop_last() =~= before);
        self.slots = slots;
        assert(self@ =~= old(self)@.insert((tenant_id@, idempotency_key@), row@));
    }

    /// What is known of a request that bears this key.
    pub fn lookup(
        &self,
        tenant_id: &str,
        idempotency_key: &str,
        request_digest: &str,
        now: Timestamp,
    ) -> (r: LookupOutcome)
        ensures
            r@ == lookup_result(
                row_at(self@, tenant_id@, idempotency_key@),
                request_digest@,
                now@,
                self.time_to_live(),
            ),
    {
        match self.position(tenant_id, idempotency_key) {
            Some(i) => lookup_row(Some(&self.slots[i].row), request_digest, now, self.ttl),
            None => LookupOutcome::Miss,
        }
    }

    /// Claims the key for a request under the given token, unless a response is
    /// known or another holder is executing it.
    pub fn reserve_as(
        &mut self,
        tenant_id: &str,
        idempotency_key: &str,
        request_digest: &str,
        now: Timestamp,
        lease: Span,
        token: String,
    ) -> (r: ReserveOutcome)
        ensures
            final(self).time_to_live() == old(self).time_to_live(),
            reserved(
                old(self)@,
                final(self)@,
                tenant_id@,
                idempotency_key@,
                request_digest@,
                now@,
                old(self).time_to_live(),
                lease@,
                token,
                r,
            ),
    {
        let found = self.position(tenant_id, idempotency_key);
        let existing = match found {
            Some(i) => Some(&self.slots[i].row),
            None => None,
        };
        match decide_reservation(existing, request_digest, now, self.ttl, lease) {
            ReserveDecision::Claim => {
                let row = IdempotencyRow {
                    request_digest: String::from_str(request_digest),
                    response: CachedResponse { status: PENDING_STATUS, body_json: Vec::new() },
                    created_at: now,
                    reservation_id: token.clone(),
                };
                assert(row@.body =~= Seq::<u8>::empty());
                self.put(tenant_id, idempotency_key, row);
                ReserveOutcome::Won(token)
            },
            ReserveDecision::Replay => match existing {
                Some(e) => ReserveOutcome::Replay(e.response.clone()),
                None => ReserveOutcome::Conflict,
            },
            ReserveDecision::Conflict => ReserveOutcome::Conflict,
            ReserveDecision::InProgress => ReserveOutcome::InProgress,
        }
    }

    /// Claims the key for a request under a fresh token, unless a response is
    /// known or another holder is executing it.
    ///
    /// `lease` bounds how long a holder that died can block the key. It should
    /// be well above the slowest execution.
    pub fn reserve(
        &mut self,
        tenant_id: &str,
        idempotency_key: &str,
        request_digest: &str,
        now: Timestamp,
        lease: Span,
    ) -> (r: ReserveOutcome)
        ensures
            final(self).time_to_live() == old(self).time_to_live(),
            match reserve_result(
                row_at(old(self)@, tenant_id@, idempotency_key@),
                request_digest@,
                now@,
                old(self).time_to_live(),
                lease@,
            ) {
                ReserveView::Claim => {
                    &&& r matches ReserveOutcome::Won(token) && is_uuid_text(token@) && final(self)@ == old(self)@.insert(
                        (tenant_id@, idempotency_key@),
                        RowView::reservation(request_digest@, now@, token@),
                    )
                },
                ReserveView::Replay(status, body) => {
                    &&& r matches ReserveOutcome::Replay(c) && c.status == status && c.body_json@
                        == body
                    &&& final(self)@ == old(self)@
                },
                ReserveView::Conflict => r is Conflict && final(self)@ == old(self)@,
                ReserveView::InProgress => r is InProgress && final(self)@ == old(self)@,
            },
    {
        let token = fresh_id("");
        proof {
            reveal_strlit("");
            let u = choose|u: Seq<char>| is_uuid_text(u) && token@ == ""@ + u;
            assert(token@ =~= u);
        }
        self.reserve_as(tenant_id, idempotency_key, request_digest, now, lease, token)
    }

    /// Gives a reservation up whose execution failed. Nothing happens when the
    /// key holds a response, or a reservation under another token.
    pub fn release(&mut self, tenant_id: &str, idempotency_key: &str, reservation_id: &str)
        ensures
            final(self).time_to_live() == old(self).time_to_live(),
            final(self)@ == released(
                old(self)@,
                tenant_id@,
                idempotency_key@,
                reservation_id@,
            ),
    {
        let owned = match self.position(tenant_id, idempotency_key) {
            Some(i) => self.slots[i].row.response.status == PENDING_STATUS && str_eq(
                self.slots[i].row.reservation_id.as_str(),
                reservation_id,
            ),
            None => false,
        };
        if owned {
            self.remove(tenant_id, idempotency_key);
        }
    }

    /// Keeps the response to a request whose key the caller reserved. A caller
    /// that was superseded by a takeover changes nothing. Says whether the
    /// response was kept.
    pub fn store(
        &mut self,
        tenant_id: &str,
        idempotency_key: &str,
        request_digest: &str,
        response: CachedResponse,
        now: Timestamp,
        reservation_id: &str,
    ) -> (kept: bool)
        ensures
            final(self).time_to_live() == old(self).time_to_live(),
            stored(
                old(self)@,
                final(self)@,
                tenant_id@,
                idempotency_key@,
                request_digest@,
                response,
                now@,
                reservation_id@,
                kept,
            ),
    {
        let owns_or_absent = match self.position(tenant_id, idempotency_key) {
            Some(i) => str_eq(self.slots[i].row.reservation_id.as_str(), reservation_id),
            None => true,
        };
        if owns_or_absent {
            let row = IdempotencyRow {
                request_digest: String::from_str(request_digest),
                response,
                created_at: now,
                reservation_id: String::new(),
            };
            self.put(tenant_id, idempotency_key, row);
        }
        owns_or_absent
    }

    /// The number of keys.
    pub fn len(&self) -> (r: usize)
        ensures
            self@.dom().finite(),
            r == self@.dom().len(),
    {
        proof {
            use_type_invariant(self);
            lemma_rows_len(self.slots@);
        }
        self.slots.len()
    }

    /// Whether nothing is kept.
    pub fn is_empty(&self) -> (r: bool)
        ensures
            r == (self@ == Map::<(Seq<char>, Seq<char>), RowView>::empty()),
    {
        let n: usize = self.len();
        assert(n == 0 ==> self@ =~= Map::<(Seq<char>, Seq<char>), RowView>::empty());
        n == 0
    }

    /// Drops everything that is past its time to live, and says how much that
    /// was.
    pub fn prune(&mut self, now: Timestamp) -> (r: usize)
        ensures
            final(self).time_to_live() == old(self).time_to_live(),
            old(self)@.dom().finite(),
            final(self)@ == pruned(old(self)@, now@, old(self).time_to_live()),
            r == expired_keys(old(self)@, now@, old(self).time_to_live()).len(),
            final(self)@.dom().len() == old(self)@.dom().len() - r,
    {
        proof {
            use_type_invariant(&*self);
            lemma_rows_len(self.slots@);
        }
        let ghost before = self.slots@;
        let before_len: usize = self.slots.len();
        let mut slots: Vec<Slot> = Vec::new();
        std::mem::swap(&mut slots, &mut self.slots);
        let ttl = self.ttl;
        let mut i: usize = 0;
        proof {
            assert forall|j: int| 0 <= j < slots@.len() implies rows_of(before).contains_key(
                ((#[trigger] slots@[j]).tenant@, slots@[j].key@),
            ) && rows_of(before)[(slots@[j].tenant@, slots@[j].key@)] == slots@[j].row@ by {
                lemma_rows_value(before, j);
            }
            assert forall|k: (Seq<char>, Seq<char>)| #[trigger]
                rows_of(before).contains_key(k) && !rows_of(before)[k].expired(
                now@,
                ttl@,
            ) implies exists|j: int| slot_is(slots@, j, k) by {
                lemma_rows_keys(before, k);
            }
        }
        // The slots before `i` are the live ones so far, in order.
        while i < slots.len()
            invariant
                i <= slots@.len() <= before.len(),
                distinct_slots(slots@),
                distinct_slots(before),
                forall|j: int| 0 <= j < i ==> !(#[trigger] slots@[j]).row@.expired(now@, ttl@),
                forall|j: int|
                    0 <= j < slots@.len() ==> rows_of(before).contains_key(
                        ((#[trigger] slots@[j]).tenant@, slots@[j].key@),
                    ) && rows_of(before)[(slots@[j].tenant@, slots@[j].key@)] == slots@[j].row@,
                forall|k: (Seq<char>, Seq<char>)| #[trigger]
                    rows_of(before).contains_key(k) && !rows_of(before)[k].expired(now@, ttl@)
                        ==> exists|j: int| slot_is(slots@, j, k),
            decreases slots@.len() - i,
        {
            if now.since(&slots[i].row.created_at).longer_than(ttl) {
                let ghost s = slots@;
                slots.remove(i);
                proof {
                    lemma_rows_remove(s, i as int);
                    assert forall|k: (Seq<char>, Seq<char>)| #[trigger]
                        rows_of(before).contains_key(k) && !rows_of(before)[k].expired(
                            now@,
                            ttl@,
                        ) implies exists|j: int| slot_is(slots@, j, k) by {
                        let j = choose|j: int| slot_is(s, j, k);
                        assert(j != i);
                        let m = if j < i {
                            j
                        } else {
                            j - 1
                        };
                        assert(slot_is(slots@, m, k));
                    }
                    assert forall|j: int| 0 <= j < slots@.len() implies rows_of(
                        before,
                    ).contains_key(((#[trigger] slots@[j]).tenant@, slots@[j].key@)) && rows_of(
                        before,
                    )[(slots@[j].tenant@, slots@[j].key@)] == slots@[j].row@ by {
                        let m = if j < i {
                            j
                        } else {
                            j + 1
                        };
                        assert(slots@[j] == s[m]);
                    }
                }
            } else {
                i += 1;
            }
        }
        let removed: usize = before_len - slots.len();
        self.slots = slots;
        proof {
            lemma_rows_len(self.slots@);
            assert forall|k: (Seq<char>, Seq<char>)| #[trigger]
                self@.contains_key(k) <==> old(self)@.contains_key(k) && !old(self)@[k].expired(
                now@,
                ttl@,
            ) by {
                lemma_rows_keys(self.slots@, k);
                if exists|j: int| slot_is(self.slots@, j, k) {
                    let j = choose|j: int| slot_is(self.slots@, j, k);
                    assert(!self.slots@[j].row@.expired(now@, ttl@));
                }
            }
            assert forall|k: (Seq<char>, Seq<char>)| #[trigger]
                self@.contains_key(k) implies self@[k] == old(self)@[k] by {
                lemma_rows_keys(self.slots@, k);
                let j = choose|j: int| slot_is(self.slots@, j, k);
                lemma_rows_value(self.slots@, j);
            }
            assert(self@ =~= pruned(old(self)@, now@, ttl@));
            let dropped = expired_keys(old(self)@, now@, ttl@);
            lemma_set_difference_len(old(self)@.dom(), dropped);
            assert(old(self)@.dom().difference(dropped) =~= self@.dom());
            assert(old(self)@.dom().intersect(dropped) =~= dropped);
        }
        removed
    }
}

// ---------------------------------------------------------------------------
// Laws
// ---------------------------------------------------------------------------

/// A response that was stored is what a retry of the same request gets, for as
/// long as it is kept; another request under the same key is a conflict.
pub proof fn law_stored_response_is_replayed(
    row: RowView,
    digest: Seq<char>,
    now: int,
    ttl: int,
    lease: int,
)
    requires
        !row.pending(),
        now - row.created_at <= ttl,
    ensures
        row.digest == digest ==> lookup_result(Some(row), digest, now, ttl) == LookupView::Replay(
            row.status,
            row.body,
        ) && reserve_result(Some(row), digest, now, ttl, lease) == ReserveView::Replay(
            row.status,
            row.body,
        ),
        row.digest != digest ==> lookup_result(Some(row), digest, now, ttl) is Conflict
            && reserve_result(Some(row), digest, now, ttl, lease) is Conflict,
{
}

/// While a reservation is within its lease nobody else gets the key, whatever
/// the request, and no lookup sees a response.
pub proof fn law_one_holder_at_a_time(
    holder: Seq<char>,
    token: Seq<char>,
    reserved_at: int,
    digest: Seq<char>,
    now: int,
    ttl: int,
    lease: int,
)
    requires
        now - reserved_at <= lease,
        now - reserved_at <= ttl,
    ensures
        reserve_result(
            Some(RowView::reservation(holder, reserved_at, token)),
            digest,
            now,
            ttl,
            lease,
        ) is InProgress,
        lookup_result(Some(RowView::reservation(holder, reserved_at, token)), digest, now, ttl)
            is Miss,
{
}

/// Once the lease of a reservation is over, the next request gets the key.
pub proof fn law_dead_holder_is_replaced(
    holder: Seq<char>,
    token: Seq<char>,
    reserved_at: int,
    digest: Seq<char>,
    now: int,
    ttl: int,
    lease: int,
)
    requires
        now - reserved_at > lease,
    ensures
        reserve_result(
            Some(RowView::reservation(holder, reserved_at, token)),
            digest,
            now,
            ttl,
            lease,
        ) is Claim,
{
}

/// Past its time to live an entry is as good as absent.
pub proof fn law_expired_is_absent(
    row: RowView,
    digest: Seq<char>,
    now: int,
    ttl: int,
    lease: int,
)
    requires
        row.expired(now, ttl),
    ensures
        lookup_result(Some(row), digest, now, ttl) == lookup_result(None, digest, now, ttl),
        reserve_result(Some(row), digest, now, ttl, lease) == reserve_result(
            None,
            digest,
            now,
            ttl,
            lease,
        ),
{
}

/// Writing under the key of one tenant changes nothing for another.
pub proof fn law_tenants_do_not_collide(
    store: Map<(Seq<char>, Seq<char>), RowView>,
    tenant: Seq<char>,
    other: Seq<char>,
    key: Seq<char>,
    row: RowView,
)
    requires
        tenant != other,
    ensures
        row_at(store.insert((tenant, key), row), other, key) == row_at(store, other, key),
        row_at(store.remove((tenant, key)), other, key) == row_at(store, other, key),
{
}

/// A holder that lost its key to a takeover can neither store its response nor
/// give the key up: both leave the store as the new holder made it.
pub proof fn law_superseded_holder_changes_nothing(
    store: Map<(Seq<char>, Seq<char>), RowView>,
    tenant: Seq<char>,
    key: Seq<char>,
    old_token: Seq<char>,
)
    requires
        row_at(store, tenant, key) matches Some(row) && row.token != old_token,
    ensures
        released(store, tenant, key, old_token) == store,
        !may_store(store, tenant, key, old_token),
{
}

/// After its holder gave a reservation up, the key can be claimed at once.
pub proof fn law_released_key_is_free(
    store: Map<(Seq<char>, Seq<char>), RowView>,
    tenant: Seq<char>,
    key: Seq<char>,
    reserved_for: Seq<char>,
    reserved_at: int,
    token: Seq<char>,
    digest: Seq<char>,
    now: int,
    ttl: int,
    lease: int,
)
    requires
        row_at(store, tenant, key) == Some(RowView::reservation(reserved_for, reserved_at, token)),
    ensures
        reserve_result(
            row_at(released(store, tenant, key, token), tenant, key),
            digest,
            now,
            ttl,
            lease,
        ) is Claim,
{
}

/// Nobody sees that a store was pruned: from that time on every request finds and reserves
/// what it would have without.
pub proof fn law_pruning_is_unseen(
    store: Map<(Seq<char>, Seq<char>), RowView>,
    tenant: Seq<char>,
    key: Seq<char>,
    digest: Seq<char>,
    now: int,
    later: int,
    ttl: int,
    lease: int,
)
    requires
        now <= later,
    ensures
        lookup_result(row_at(pruned(store, now, ttl), tenant, key), digest, later, ttl)
            == lookup_result(row_at(store, tenant, key), digest, later, ttl),
        reserve_result(row_at(pruned(store, now, ttl), tenant, key), digest, later, ttl, lease)
            == reserve_result(row_at(store, tenant, key), digest, later, ttl, lease),
{
}

/// A reservation stands for its lease and no longer: until it is over every other request
/// under the key is told to wait, and from then on the next one takes the key over. A
/// lookup finds nothing either way.
pub proof fn law_reservations_stand_for_their_lease(
    store: Map<(Seq<char>, Seq<char>), RowView>,
    tenant: Seq<char>,
    key: Seq<char>,
    digest: Seq<char>,
    token: Seq<char>,
    other: Seq<char>,
    start: int,
    now: int,
    ttl: int,
    lease: int,
)
    requires
        start <= now,
        lease <= ttl,
    ensures
        ({
            let row = row_at(
                store.insert((tenant, key), RowView::reservation(digest, start, token)),
                tenant,
                key,
            );
            &&& reserve_result(row, other, now, ttl, lease) == (if now - start <= lease {
                ReserveView::InProgress
            } else {
                ReserveView::Claim
            })
            &&& lookup_result(row, other, now, ttl) is Miss
        }),
{
}

/// A key is won exactly when nothing counts under it: nothing stands there, what stands there
/// is past its time, or it is a reservation whose lease is over. A reservation that still
/// holds is in progress for everyone; a response is replayed to the same request and is a
/// conflict for any other.
pub proof fn law_reservations_are_decided_by_what_stands_there(
    before: Map<(Seq<char>, Seq<char>), RowView>,
    after: Map<(Seq<char>, Seq<char>), RowView>,
    tenant: Seq<char>,
    key: Seq<char>,
    digest: Seq<char>,
    now: int,
    ttl: int,
    lease: int,
    token: String,
    r: ReserveOutcome,
)
    requires
        reserved(before, after, tenant, key, digest, now, ttl, lease, token, r),
    ensures
        ({
            let there = before.contains_key((tenant, key));
            let row = before[(tenant, key)];
            let age = now - row.created_at;
            let counts = there && age <= ttl && (row.status == 0 ==> age <= lease);
            &&& r is Won <==> !counts
            &&& r is InProgress <==> counts && row.status == 0
            &&& r is Replay <==> counts && row.status != 0 && row.digest == digest
            &&& r is Conflict <==> counts && row.status != 0 && row.digest != digest
            &&& r matches ReserveOutcome::Won(t) ==> {
                let claimed = after[(tenant, key)];
                &&& t == token && after.contains_key((tenant, key))
                &&& claimed.digest == digest && claimed.status == 0 && claimed.created_at == now
                    && claimed.token == token@
            }
            &&& r matches ReserveOutcome::Replay(c) ==> c.status == row.status && c.body_json@
                == row.body
            &&& !(r is Won) ==> after == before
            &&& forall|k: (Seq<char>, Seq<char>)|
                k != (tenant, key) ==> (after.contains_key(k) <==> before.contains_key(k))
                    && #[trigger] after[k] == before[k]
        }),
{
}

/// What the holder of a key answers is what every retry gets: for as long as responses live,
/// the same request reads the same status and body, and another request under that key is a
/// conflict.
pub proof fn law_retries_get_the_first_answer(
    before: Map<(Seq<char>, Seq<char>), RowView>,
    held: Map<(Seq<char>, Seq<char>), RowView>,
    after: Map<(Seq<char>, Seq<char>), RowView>,
    tenant: Seq<char>,
    key: Seq<char>,
    digest: Seq<char>,
    start: int,
    ttl: int,
    lease: int,
    token: String,
    response: CachedResponse,
    now: int,
    kept: bool,
    asked: Seq<char>,
    later: int,
)
    requires
        reserved(
            before,
            held,
            tenant,
            key,
            digest,
            start,
            ttl,
            lease,
            token,
            ReserveOutcome::Won(token),
        ),
        stored(held, after, tenant, key, digest, response, now, token@, kept),
        response.status != 0,
        later - now <= ttl,
    ensures
        kept,
        asked == digest ==> lookup_result(row_at(after, tenant, key), asked, later, ttl)
            == LookupView::Replay(response.status, response.body_json@),
        asked != digest ==> lookup_result(row_at(after, tenant, key), asked, later, ttl)
            is Conflict,
{
}

/// A response is found exactly when one stands under the key and still lives: the same
/// request gets it, another one is a conflict, and a reservation is not one yet.
pub proof fn law_lookups_find_living_responses(
    row: Option<RowView>,
    digest: Seq<char>,
    now: int,
    ttl: int,
)
    ensures
        ({
            let r = lookup_result(row, digest, now, ttl);
            let lives = row matches Some(x) && x.status != 0 && now - x.created_at <= ttl;
            &&& r is Miss <==> !lives
            &&& r is Conflict <==> lives && row->0.digest != digest
            &&& r matches LookupView::Replay(status, body) ==> lives && row->0.digest == digest
                && status == row->0.status && body == row->0.body
        }),
{
}

/// A response is kept exactly when nothing stands under the key or the token is the one that
/// reserved it, and then only that key changes.
pub proof fn law_only_the_holder_stores(
    before: Map<(Seq<char>, Seq<char>), RowView>,
    after: Map<(Seq<char>, Seq<char>), RowView>,
    tenant: Seq<char>,
    key: Seq<char>,
    digest: Seq<char>,
    response: CachedResponse,
    now: int,
    token: Seq<char>,
    kept: bool,
)
    requires
        stored(before, after, tenant, key, digest, response, now, token, kept),
    ensures
        kept <==> !before.contains_key((tenant, key)) || before[(tenant, key)].token == token,
        !kept ==> after == before,
        kept ==> {
            let row = after[(tenant, key)];
            &&& after.contains_key((tenant, key)) && row.digest == digest && row.status
                == response.status && row.body == response.body_json@ && row.created_at == now
        },
        forall|k: (Seq<char>, Seq<char>)|
            k != (tenant, key) ==> (after.contains_key(k) <==> before.contains_key(k))
                && #[trigger] after[k] == before[k],
{
}

/// A key is released exactly by the token that reserved it, while it is still reserved.
pub proof fn law_only_the_holder_releases(
    store: Map<(Seq<char>, Seq<char>), RowView>,
    tenant: Seq<char>,
    key: Seq<char>,
    token: Seq<char>,
)
    ensures
        ({
            let row = store[(tenant, key)];
            let mine = store.contains_key((tenant, key)) && row.status == 0 && row.token == token;
            &&& mine ==> released(store, tenant, key, token) == store.remove((tenant, key))
            &&& !mine ==> released(store, tenant, key, token) == store
        }),
{
}

/// Pruning drops exactly the rows that are past their time.
pub proof fn law_pruning_drops_what_is_past_its_time(
    store: Map<(Seq<char>, Seq<char>), RowView>,
    now: int,
    ttl: int,
    k: (Seq<char>, Seq<char>),
)
    ensures
        pruned(store, now, ttl).contains_key(k) <==> store.contains_key(k) && now
            - store[k].created_at <= ttl,
        pruned(store, now, ttl).contains_key(k) ==> pruned(store, now, ttl)[k] == store[k],
{
}

} // verus!
