//! Request budgets in fixed windows of time.
//!
//! Each tenant has a counter that starts anew with every window and is capped at
//! the tenant's capacity. A capacity of zero means no limit at all. The counters
//! are kept in this process by [`RateLimiter`]; [`RedisRateLimiter`] holds the
//! rules for counters that a fleet shares.

use vstd::prelude::*;
use vstd::utf8::encode_utf8;

use crate::crypto::{body_sha256, sha256_hex};
use crate::numerals::{lemma_nat_text_round_trip, nat_text, nat_to_text};
use crate::table::Table;
use crate::text::join5;

verus! {

/// What to do with a request.
#[derive(Debug, Clone, Copy, PartialEq, Eq, Structural)]
pub enum RateLimitDecision {
    Allowed {
        /// Capacity of the window.
        limit: u32,
        /// Requests that are left in the window after this one.
        remaining: u32,
        /// Seconds until the window resets; at least one.
        reset_in_secs: u64,
    },
    Denied {
        limit: u32,
        /// Seconds to wait before a retry.
        retry_after_secs: u64,
    },
}

/// The longest window, in nanoseconds.
pub const MAX_WINDOW_NANOS: u128 = 18_446_744_073_709_551_615_999_999_999;

#[derive(Debug)]
struct Bucket {
    used: u32,
    window_start: u128,
}

/// The model of a tenant's counter: the requests counted, and when the window
/// began.
pub struct BucketView {
    pub used: int,
    pub start: int,
}

/// The part of `a` above `b`.
pub open spec fn excess(a: int, b: int) -> int {
    if a > b {
        a - b
    } else {
        0
    }
}

/// The counter of the window that is open at `now`: a new one for a new tenant,
/// and when the last window is over.
pub open spec fn open_bucket(b: Option<BucketView>, now: int, window: int) -> BucketView {
    match b {
        Some(v) => if excess(now, v.start) >= window {
            BucketView { used: 0, start: now }
        } else {
            v
        },
        None => BucketView { used: 0, start: now },
    }
}

/// Seconds until the window that began at `start` resets; at least one.
pub open spec fn reset_secs(start: int, now: int, window: int) -> int {
    let secs = excess(window, excess(now, start)) / 1_000_000_000;
    if secs < 1 {
        1
    } else {
        secs
    }
}

/// The counter after a request at `now`.
pub open spec fn counted(b: Option<BucketView>, capacity: int, now: int, window: int) -> BucketView {
    let open = open_bucket(b, now, window);
    if open.used >= capacity {
        open
    } else {
        BucketView { used: open.used + 1, ..open }
    }
}

/// Whether a request at `now` is within the capacity.
pub open spec fn admitted(b: Option<BucketView>, capacity: int, now: int, window: int) -> bool {
    open_bucket(b, now, window).used < capacity
}

impl RateLimitDecision {
    /// Whether this is the answer to a request at `now`.
    pub open spec fn answers(
        self,
        b: Option<BucketView>,
        capacity: int,
        now: int,
        window: int,
    ) -> bool {
        let open = open_bucket(b, now, window);
        match self {
            RateLimitDecision::Allowed { limit, remaining, reset_in_secs } => {
                &&& admitted(b, capacity, now, window)
                &&& limit == capacity
                &&& remaining == capacity - (open.used + 1)
                &&& reset_in_secs == reset_secs(open.start, now, window)
            },
            RateLimitDecision::Denied { limit, retry_after_secs } => {
                &&& !admitted(b, capacity, now, window)
                &&& limit == capacity
                &&& retry_after_secs == reset_secs(open.start, now, window)
            },
        }
    }
}

/// `std::time::Instant`: a reading of the monotonic clock.
#[verifier::external_type_specification]
#[verifier::external_body]
pub struct ExInstant(std::time::Instant);

/// `std::time::Instant::now`: the reading of the monotonic clock at the time of
/// the call, of which nothing is known.
#[verifier::external_body]
fn clock_now() -> (r: std::time::Instant) {
    std::time::Instant::now()
}

/// `std::time::Instant::elapsed`: the nanoseconds since the reading, of which
/// nothing is known.
#[verifier::external_body]
fn nanos_since(origin: &std::time::Instant) -> (r: u128) {
    origin.elapsed().as_nanos()
}

/// Counters in fixed windows, kept in this process.
#[derive(Debug)]
pub struct RateLimiter {
    default_capacity: u32,
    window: u128,
    origin: std::time::Instant,
    buckets: Table<Bucket>,
}

impl View for RateLimiter {
    type V = Map<Seq<char>, BucketView>;

    closed spec fn view(&self) -> Map<Seq<char>, BucketView> {
        self.buckets@.map_values(
            |b: Bucket| BucketView { used: b.used as int, start: b.window_start as int },
        )
    }
}

/// The counter of a tenant, if it has one.
pub open spec fn bucket_of(m: Map<Seq<char>, BucketView>, tenant: Seq<char>) -> Option<BucketView> {
    if m.contains_key(tenant) {
        Some(m[tenant])
    } else {
        None
    }
}

/// The tenant's own capacity, or the default.
pub open spec fn effective_capacity(own: Option<u32>, default_capacity: u32) -> u32 {
    match own {
        Some(c) => c,
        None => default_capacity,
    }
}

/// The whole seconds of a window; at least one.
pub open spec fn window_secs(window: int) -> int {
    if window / 1_000_000_000 < 1 {
        1
    } else {
        window / 1_000_000_000
    }
}

/// The answer to a request that no capacity limits.
pub open spec fn unlimited(secs: int) -> RateLimitDecision {
    RateLimitDecision::Allowed { limit: 0, remaining: u32::MAX, reset_in_secs: secs as u64 }
}

/// Whether `r` is the answer to a request at `now`, and the counters moved from
/// `before` to `after` with it. With a capacity of zero everything is allowed and
/// nothing is counted.
pub open spec fn answered_at(
    now: int,
    r: RateLimitDecision,
    before: Map<Seq<char>, BucketView>,
    after: Map<Seq<char>, BucketView>,
    tenant: Seq<char>,
    capacity: int,
    window: int,
) -> bool {
    if capacity == 0 {
        r == unlimited(window_secs(window)) && after == before
    } else {
        &&& r.answers(bucket_of(before, tenant), capacity, now, window)
        &&& after == before.insert(
            tenant,
            counted(bucket_of(before, tenant), capacity, now, window),
        )
    }
}

/// Whether a limiter counted one request of the bucket, at some time, and
/// answered with `r`. With a capacity of zero the time does not count.
pub open spec fn asked(
    before: RateLimiter,
    after: RateLimiter,
    bucket: Seq<char>,
    capacity: Option<u32>,
    r: RateLimitDecision,
) -> bool {
    let cap = effective_capacity(capacity, before.capacity());
    &&& after.capacity() == before.capacity()
    &&& after.window() == before.window()
    &&& if cap == 0 {
        after@ == before@ && r == unlimited(window_secs(before.window()))
    } else {
        exists|now: int| #[trigger]
            answered_at(now, r, before@, after@, bucket, cap as int, before.window())
    }
}

impl RateLimiter {
    #[verifier::type_invariant]
    spec fn inv(self) -> bool {
        self.window <= MAX_WINDOW_NANOS
    }

    /// The capacity of tenants that declare none.
    pub closed spec fn capacity(&self) -> u32 {
        self.default_capacity
    }

    /// The length of the window, in nanoseconds.
    pub closed spec fn window(&self) -> int {
        self.window as int
    }

    /// A limiter without counters. The window is given in nanoseconds.
    pub fn new(default_capacity: u32, window_nanos: u128) -> (r: RateLimiter)
        requires
            window_nanos <= MAX_WINDOW_NANOS,
        ensures
            r.capacity() == default_capacity,
            r.window() == window_nanos,
            r@ == Map::<Seq<char>, BucketView>::empty(),
    {
        let r = RateLimiter {
            default_capacity,
            window: window_nanos,
            origin: clock_now(),
            buckets: Table::new(),
        };
        assert(r@ =~= Map::<Seq<char>, BucketView>::empty());
        r
    }

    /// A limiter with a window of one minute.
    pub fn per_minute(default_capacity: u32) -> (r: RateLimiter)
        ensures
            r.capacity() == default_capacity,
            r.window() == 60_000_000_000,
            r@ == Map::<Seq<char>, BucketView>::empty(),
    {
        RateLimiter::new(default_capacity, 60_000_000_000)
    }

    /// Counts a request now and says whether it is allowed. The tenant's own
    /// capacity counts when it has one; with a capacity of zero everything is
    /// allowed and nothing is counted.
    pub fn check(&mut self, tenant_id: &str, tenant_capacity: Option<u32>) -> (r: RateLimitDecision)
        ensures
            asked(*old(self), *final(self), tenant_id@, tenant_capacity, r),
    {
        let cap: u32 = match tenant_capacity {
            Some(c) => c,
            None => self.default_capacity,
        };
        let now: u128 = nanos_since(&self.origin);
        let r = self.check_at(tenant_id, cap, now);
        assert(answered_at(
            now as int,
            r,
            old(self)@,
            self@,
            tenant_id@,
            cap as int,
            old(self).window(),
        ));
        r
    }

    /// Counts a request at `now`, in nanoseconds of a monotonic clock, and says
    /// whether it is within the capacity. With a capacity of zero everything is
    /// allowed and nothing is counted.
    pub fn check_at(&mut self, tenant_id: &str, capacity: u32, now: u128) -> (r: RateLimitDecision)
        ensures
            final(self).capacity() == old(self).capacity(),
            final(self).window() == old(self).window(),
            answered_at(
                now as int,
                r,
                old(self)@,
                final(self)@,
                tenant_id@,
                capacity as int,
                old(self).window(),
            ),
    {
        proof {
            use_type_invariant(&*self);
        }
        let window: u128 = self.window;
        if capacity == 0 {
            let secs: u64 = (window / 1_000_000_000) as u64;
            return RateLimitDecision::Allowed {
                limit: 0,
                remaining: u32::MAX,
                reset_in_secs: if secs < 1 {
                    1
                } else {
                    secs
                },
            };
        }
        let mut buckets: Table<Bucket> = Table::new();
        std::mem::swap(&mut buckets, &mut self.buckets);
        let mut bucket = match buckets.remove(tenant_id) {
            Some(b) => b,
            None => Bucket { used: 0, window_start: now },
        };
        let since: u128 = if now > bucket.window_start {
            now - bucket.window_start
        } else {
            0
        };
        if since >= window {
            bucket.window_start = now;
            bucket.used = 0;
        }
        let elapsed: u128 = if now > bucket.window_start {
            now - bucket.window_start
        } else {
            0
        };
        let reset_in: u128 = if window > elapsed {
            window - elapsed
        } else {
            0
        };
        let whole: u64 = (reset_in / 1_000_000_000) as u64;
        let reset_in_secs: u64 = if whole < 1 {
            1
        } else {
            whole
        };
        let ghost before = bucket_of(old(self)@, tenant_id@);
        assert(open_bucket(before, now as int, window as int) == (BucketView {
            used: bucket.used as int,
            start: bucket.window_start as int,
        }));
        let decision = if bucket.used >= capacity {
            RateLimitDecision::Denied { limit: capacity, retry_after_secs: reset_in_secs }
        } else {
            bucket.used = bucket.used + 1;
            RateLimitDecision::Allowed {
                limit: capacity,
                remaining: capacity - bucket.used,
                reset_in_secs,
            }
        };
        buckets.insert(String::from_str(tenant_id), bucket);
        self.buckets = buckets;
        assert(self@ =~= old(self)@.insert(
            tenant_id@,
            counted(before, capacity as int, now as int, window as int),
        ));
        decision
    }

    /// The capacity of tenants that declare none.
    pub fn default_capacity(&self) -> (r: u32)
        ensures
            r == self.capacity(),
    {
        self.default_capacity
    }

    /// The length of the window, in nanoseconds.
    pub fn window_nanos(&self) -> (r: u128)
        ensures
            r == self.window(),
    {
        self.window
    }

    /// Forgets every counter.
    pub fn clear(&mut self)
        ensures
            final(self)@ == Map::<Seq<char>, BucketView>::empty(),
            final(self).capacity() == old(self).capacity(),
            final(self).window() == old(self).window(),
    {
        proof {
            use_type_invariant(&*self);
        }
        self.buckets = Table::new();
        assert(self@ =~= Map::<Seq<char>, BucketView>::empty());
    }

    /// The number of tenants with a counter.
    pub fn tracked_tenants(&self) -> (r: usize)
        ensures
            r == self@.dom().len(),
    {
        let r: usize = self.buckets.len();
        assert(self@.dom() =~= self.buckets@.dom());
        r
    }
}

// ---------------------------------------------------------------------------
// Shared counters
// ---------------------------------------------------------------------------

/// The rules for counters that a fleet keeps in Redis: one counter per bucket
/// and window, under a key that shows only a digest of the bucket.
#[derive(Debug)]
pub struct RedisRateLimiter {
    default_capacity: u32,
    window_secs: u64,
    prefix: String,
}

/// What to ask the shared store for a request.
#[derive(Debug)]
#[allow(inconsistent_fields)]
pub enum SharedCount {
    /// Nothing: the request is allowed.
    Unlimited(RateLimitDecision),
    /// Count one more under `key`, which a new counter keeps for `ttl_secs`.
    Count { key: String, ttl_secs: i64, capacity: u32, reset_in_secs: u64 },
}

/// The length of a shared window, in seconds; at least one.
pub open spec fn window_length(window_secs: int) -> int {
    if window_secs < 1 {
        1
    } else {
        window_secs
    }
}

/// The key of a shared counter.
pub open spec fn shared_key(prefix: Seq<char>, index: int, bucket: Seq<char>) -> Seq<char> {
    prefix + ":"@ + nat_text(index as nat) + ":"@ + sha256_hex(encode_utf8(bucket))
}

/// Whether this is what counting a request of the bucket in the second `now` takes.
pub open spec fn plans(
    limiter: RedisRateLimiter,
    bucket: Seq<char>,
    own: Option<u32>,
    now: int,
    r: SharedCount,
) -> bool {
    let cap = effective_capacity(own, limiter.capacity());
    let length = window_length(limiter.window());
    if cap == 0 {
        r == SharedCount::Unlimited(unlimited(length))
    } else {
        &&& r matches SharedCount::Count { key, ttl_secs, capacity, reset_in_secs }
        &&& key@ == shared_key(limiter.key_prefix(), now / length, bucket)
        &&& ttl_secs == length + 1
        &&& capacity == cap
        &&& reset_in_secs == length - now % length
    }
}

impl RedisRateLimiter {
    #[verifier::type_invariant]
    spec fn inv(self) -> bool {
        self.window_secs < 0x7fff_ffff_ffff_ffff
    }

    /// The capacity of buckets that declare none.
    pub closed spec fn capacity(&self) -> u32 {
        self.default_capacity
    }

    /// The length of the window, in seconds.
    pub closed spec fn window(&self) -> int {
        self.window_secs as int
    }

    /// The beginning of every key.
    pub closed spec fn key_prefix(&self) -> Seq<char> {
        self.prefix@
    }

    /// Rules with the given prefix, capacity and window.
    pub fn new(prefix: &str, default_capacity: u32, window_secs: u64) -> (r: RedisRateLimiter)
        requires
            window_secs < 0x7fff_ffff_ffff_ffff,
        ensures
            r.key_prefix() == prefix@,
            r.capacity() == default_capacity,
            r.window() == window_secs,
    {
        RedisRateLimiter { default_capacity, window_secs, prefix: String::from_str(prefix) }
    }

    /// Rules with a window of one minute.
    pub fn per_minute(prefix: &str, default_capacity: u32) -> (r: RedisRateLimiter)
        ensures
            r.key_prefix() == prefix@,
            r.capacity() == default_capacity,
            r.window() == 60,
    {
        RedisRateLimiter::new(prefix, default_capacity, 60)
    }

    /// The capacity of buckets that declare none.
    pub fn default_capacity(&self) -> (r: u32)
        ensures
            r == self.capacity(),
    {
        self.default_capacity
    }

    /// The length of the window, in seconds.
    pub fn window_seconds(&self) -> (r: u64)
        ensures
            r == self.window(),
    {
        self.window_secs
    }

    /// The key of the counter for a bucket in a window.
    pub fn key(&self, bucket_id: &str, window_index: u64) -> (r: String)
        ensures
            r@ == shared_key(self.key_prefix(), window_index as int, bucket_id@),
    {
        let digest = body_sha256(bucket_id.as_bytes());
        let index = nat_to_text(window_index as u128);
        join5(self.prefix.as_str(), ":", index.as_str(), ":", digest.as_str())
    }

    /// What to ask the shared store for a request at `now_secs` of Unix time.
    pub fn plan(&self, bucket_id: &str, bucket_capacity: Option<u32>, now_secs: u64) -> (r:
        SharedCount)
        ensures
            plans(*self, bucket_id@, bucket_capacity, now_secs as int, r),
    {
        proof {
            use_type_invariant(self);
        }
        let cap: u32 = match bucket_capacity {
            Some(c) => c,
            None => self.default_capacity,
        };
        let length: u64 = if self.window_secs < 1 {
            1
        } else {
            self.window_secs
        };
        if cap == 0 {
            return SharedCount::Unlimited(
                RateLimitDecision::Allowed {
                    limit: 0,
                    remaining: u32::MAX,
                    reset_in_secs: length,
                },
            );
        }
        let index: u64 = now_secs / length;
        let into: u64 = now_secs % length;
        let key = self.key(bucket_id, index);
        SharedCount::Count {
            key,
            ttl_secs: (length + 1) as i64,
            capacity: cap,
            reset_in_secs: length - into,
        }
    }
}

/// What to do with a request, given the shared count that includes it.
pub fn decide_shared(count: i64, capacity: u32, reset_in_secs: u64) -> (r: RateLimitDecision)
    ensures
        r == (if count > capacity {
            RateLimitDecision::Denied { limit: capacity, retry_after_secs: reset_in_secs }
        } else {
            RateLimitDecision::Allowed {
                limit: capacity,
                remaining: if count < 0 {
                    0u32
                } else {
                    (capacity - count) as u32
                },
                reset_in_secs,
            }
        }),
{
    if count > capacity as i64 {
        return RateLimitDecision::Denied { limit: capacity, retry_after_secs: reset_in_secs };
    }
    let remaining: u32 = if count < 0 {
        0
    } else {
        capacity - count as u32
    };
    RateLimitDecision::Allowed { limit: capacity, remaining, reset_in_secs }
}

// ---------------------------------------------------------------------------
// Laws
// ---------------------------------------------------------------------------

/// The counter after a run of requests, and how many of them were allowed.
pub open spec fn run_of_requests(b: BucketView, times: Seq<int>, capacity: int, window: int) -> (
    BucketView,
    int,
)
    decreases times.len(),
{
    if times.len() == 0 {
        (b, 0)
    } else {
        let (c, n) = run_of_requests(b, times.drop_last(), capacity, window);
        let now = times.last();
        (
            counted(Some(c), capacity, now, window),
            if admitted(Some(c), capacity, now, window) {
                n + 1
            } else {
                n
            },
        )
    }
}

/// Of the requests that arrive in one window the first ones are allowed, exactly as many
/// as its capacity, and no more.
pub proof fn law_window_admits_its_capacity(start: int, times: Seq<int>, capacity: int, window: int)
    requires
        capacity >= 0,
        forall|i: int| 0 <= i < times.len() ==> excess(#[trigger] times[i], start) < window,
    ensures
        ({
            let (b, n) = run_of_requests(BucketView { used: 0, start }, times, capacity, window);
            &&& b.start == start
            &&& b.used == n
            &&& n == (if times.len() < capacity {
                times.len() as int
            } else {
                capacity
            })
        }),
    decreases times.len(),
{
    if times.len() > 0 {
        let before = times.drop_last();
        assert forall|i: int| 0 <= i < before.len() implies excess(#[trigger] before[i], start)
            < window by {
            assert(before[i] == times[i]);
        }
        law_window_admits_its_capacity(start, before, capacity, window);
        assert(times.last() == times[times.len() - 1]);
    }
}

/// The request at position `i` of a window is allowed exactly when fewer than the
/// capacity came before it.
pub proof fn law_first_requests_are_allowed(
    start: int,
    times: Seq<int>,
    capacity: int,
    window: int,
    i: int,
)
    requires
        capacity >= 0,
        0 <= i < times.len(),
        forall|j: int| 0 <= j < times.len() ==> excess(#[trigger] times[j], start) < window,
    ensures
        ({
            let b = run_of_requests(
                BucketView { used: 0, start },
                times.take(i),
                capacity,
                window,
            ).0;
            admitted(Some(b), capacity, times[i], window) <==> i < capacity
        }),
{
    assert forall|j: int| 0 <= j < i implies excess(#[trigger] times.take(i)[j], start) < window by {
        assert(times.take(i)[j] == times[j]);
    }
    law_window_admits_its_capacity(start, times.take(i), capacity, window);
}

/// Once a window is over the next request is allowed, whatever was counted.
pub proof fn law_next_window_starts_anew(b: BucketView, capacity: int, now: int, window: int)
    requires
        capacity > 0,
        excess(now, b.start) >= window,
    ensures
        admitted(Some(b), capacity, now, window),
        counted(Some(b), capacity, now, window) == (BucketView { used: 1, start: now }),
{
}

/// The requests of one tenant never touch the counter of another.
pub proof fn law_tenants_have_their_own_counters(
    m: Map<Seq<char>, BucketView>,
    tenant: Seq<char>,
    other: Seq<char>,
    b: BucketView,
)
    requires
        tenant != other,
    ensures
        bucket_of(m.insert(tenant, b), other) == bucket_of(m, other),
{
}

/// The first request of a bucket is always allowed: one that was never counted has used
/// nothing.
pub proof fn law_first_request_is_allowed(
    before: RateLimiter,
    after: RateLimiter,
    bucket: Seq<char>,
    capacity: Option<u32>,
    r: RateLimitDecision,
)
    requires
        asked(before, after, bucket, capacity, r),
        !before@.contains_key(bucket),
    ensures
        r is Allowed,
{
}

/// Whatever a limiter answers, the wait that it tells is at least a second.
pub proof fn law_waits_are_positive(
    before: RateLimiter,
    after: RateLimiter,
    bucket: Seq<char>,
    capacity: Option<u32>,
    r: RateLimitDecision,
)
    requires
        asked(before, after, bucket, capacity, r),
        before.window() <= MAX_WINDOW_NANOS,
    ensures
        match r {
            RateLimitDecision::Allowed { reset_in_secs, .. } => reset_in_secs >= 1,
            RateLimitDecision::Denied { retry_after_secs, .. } => retry_after_secs >= 1,
        },
{
}

/// A wait is never shorter than a second nor longer than the window.
pub proof fn law_wait_is_bounded(start: int, now: int, window: int)
    requires
        window >= 1_000_000_000,
    ensures
        1 <= reset_secs(start, now, window) <= window / 1_000_000_000,
{
    assert(excess(window, excess(now, start)) <= window);
}

/// A request is allowed exactly while fewer than the capacity were counted in its window. A
/// window begins with its first request and is over once its length has passed. What is left
/// and when the window is over are told with the answer.
pub proof fn law_decisions_tell_what_is_left(
    now: int,
    r: RateLimitDecision,
    before: Map<Seq<char>, BucketView>,
    after: Map<Seq<char>, BucketView>,
    tenant: Seq<char>,
    capacity: int,
    window: int,
)
    requires
        answered_at(now, r, before, after, tenant, capacity, window),
        capacity > 0,
        window > 0,
        before.contains_key(tenant) ==> before[tenant].start <= now,
    ensures
        ({
            let open = before.contains_key(tenant) && now - before[tenant].start < window;
            let used = if open {
                before[tenant].used
            } else {
                0
            };
            let start = if open {
                before[tenant].start
            } else {
                now
            };
            let rest = start + window - now;
            &&& r is Allowed <==> used < capacity
            &&& r matches RateLimitDecision::Allowed { limit, remaining, reset_in_secs } ==> {
                &&& limit == capacity && remaining == capacity - used - 1
                &&& rest >= 1_000_000_000 ==> reset_in_secs * 1_000_000_000 <= rest < (reset_in_secs
                    + 1) * 1_000_000_000
                &&& rest < 1_000_000_000 ==> reset_in_secs == 1
                &&& after[tenant].used == used + 1
            }
            &&& r matches RateLimitDecision::Denied { limit, retry_after_secs } ==> {
                &&& limit == capacity
                &&& rest >= 1_000_000_000 ==> retry_after_secs * 1_000_000_000 <= rest < (
                retry_after_secs + 1) * 1_000_000_000
                &&& rest < 1_000_000_000 ==> retry_after_secs == 1
                &&& after[tenant].used == used
            }
            &&& after.contains_key(tenant) && after[tenant].start == start
            &&& forall|k: Seq<char>|
                k != tenant ==> (after.contains_key(k) <==> before.contains_key(k))
                    && #[trigger] after[k] == before[k]
        }),
{
}

/// A capacity of nothing means no limit: every request is allowed and none is counted.
pub proof fn law_no_capacity_means_no_limit(
    now: int,
    r: RateLimitDecision,
    before: Map<Seq<char>, BucketView>,
    after: Map<Seq<char>, BucketView>,
    tenant: Seq<char>,
    window: int,
)
    requires
        answered_at(now, r, before, after, tenant, 0, window),
    ensures
        r matches RateLimitDecision::Allowed { limit, remaining, .. } && limit == 0 && remaining
            == u32::MAX,
        after == before,
{
}

/// The capacity of a tenant is its own, where it has one, and else that of the limiter.
pub proof fn law_own_capacities_come_first(
    before: RateLimiter,
    after: RateLimiter,
    bucket: Seq<char>,
    own: Option<u32>,
    r: RateLimitDecision,
)
    requires
        asked(before, after, bucket, own, r),
    ensures
        ({
            let cap = match own {
                Some(c) => c,
                None => before.capacity(),
            };
            let limit = match r {
                RateLimitDecision::Allowed { limit, .. } => limit,
                RateLimitDecision::Denied { limit, .. } => limit,
            };
            limit == cap && (cap == 0 ==> r is Allowed)
        }),
{
}

/// Shared counters are kept per bucket and window: two requests of one bucket share a counter
/// exactly when they fall into the same window, a counter outlives its window by a second,
/// and the window is over when the answer says.
pub proof fn law_shared_counters_are_per_window(
    limiter: RedisRateLimiter,
    bucket: Seq<char>,
    own: Option<u32>,
    now: int,
    r: SharedCount,
    later: int,
    again: SharedCount,
)
    requires
        plans(limiter, bucket, own, now, r),
        plans(limiter, bucket, own, later, again),
        0 <= now <= later,
        limiter.window() >= 1,
        r is Count && again is Count,
    ensures
        ({
            let length = limiter.window();
            let ends = now + r->reset_in_secs;
            &&& 1 <= r->reset_in_secs <= length && ends % length == 0
            &&& later < ends <==> r->key@ == again->key@
            &&& r->ttl_secs == length + 1
            &&& own matches Some(c) ==> r->capacity == c
            &&& own is None ==> r->capacity == limiter.capacity()
        }),
{
    let length = limiter.window();
    assert(now == length * (now / length) + now % length) by (nonlinear_arith)
        requires
            length >= 1,
    ;
    let ends = now + r->reset_in_secs;
    assert(ends == length * (now / length + 1)) by (nonlinear_arith)
        requires
            now == length * (now / length) + now % length,
            ends == now + (length - now % length),
    ;
    assert(ends % length == 0) by (nonlinear_arith)
        requires
            ends == length * (now / length + 1),
            length >= 1,
    ;
    if later < ends {
        assert(later / length == now / length) by (nonlinear_arith)
            requires
                length >= 1,
                now == length * (now / length) + now % length,
                0 <= now % length < length,
                now <= later < length * (now / length + 1),
        ;
    } else {
        assert(later / length != now / length) by (nonlinear_arith)
            requires
                length >= 1,
                later >= length * (now / length + 1),
        ;
        if r->key@ == again->key@ {
            let a = nat_text((now / length) as nat);
            let b = nat_text((later / length) as nat);
            let start = limiter.key_prefix() + ":"@;
            assert(r->key@.len() == again->key@.len());
            assert(a =~= r->key@.subrange(start.len() as int, start.len() as int + a.len()));
            assert(b =~= again->key@.subrange(start.len() as int, start.len() as int + b.len()));
            lemma_nat_text_round_trip((now / length) as nat);
            lemma_nat_text_round_trip((later / length) as nat);
        }
    }
}

} // verus!
