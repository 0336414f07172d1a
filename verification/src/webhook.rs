//! Outbound webhooks: destinations, and the outbox of deliveries.

use vstd::prelude::*;

use crate::errors::{ApiError, ErrorView};
use crate::events::{DeliveryStatus, WebhookDelivery};
use crate::listing::{newest, newest_of};
use crate::text::{has_prefix, join2, starts_with, str_eq};
use crate::time::Timestamp;

verus! {

/// Deliveries by where they stand.
#[derive(Debug, Clone, Copy, PartialEq, Eq, Structural)]
pub struct StatusCounts {
    pub pending: usize,
    pub in_flight: usize,
    pub delivered: usize,
    pub failed: usize,
    pub dead_lettered: usize,
}

/// What a sweep of old deliveries took out.
#[derive(Debug, Clone, Copy, PartialEq, Eq, Structural)]
pub struct PruneReport {
    pub delivered_pruned: usize,
    pub dead_lettered_pruned: usize,
}

// ---------------------------------------------------------------------------
// Destinations
// ---------------------------------------------------------------------------

/// What is wrong with a destination: it must be an `https://` URL, or also an
/// `http://` one where that is allowed.
pub open spec fn destination_error(url: Seq<char>, allow_insecure: bool) -> Option<Seq<char>> {
    if has_prefix(url, "https://"@) {
        None
    } else if !has_prefix(url, "http://"@) {
        Some("webhook url must be http(s)://"@)
    } else if allow_insecure {
        None
    } else {
        Some("webhook url must use https://"@)
    }
}

/// Refuses a destination that is no URL, or that is insecure where that is not
/// allowed.
pub fn validate_destination_url(url: &str, allow_insecure: bool) -> (r: Result<(), String>)
    ensures
        match r {
            Ok(()) => destination_error(url@, allow_insecure) is None,
            Err(m) => destination_error(url@, allow_insecure) == Some(m@),
        },
{
    if starts_with(url, "https://") {
        Ok(())
    } else if !starts_with(url, "http://") {
        Err(String::from_str("webhook url must be http(s)://"))
    } else if allow_insecure {
        Ok(())
    } else {
        Err(String::from_str("webhook url must use https://"))
    }
}

/// Whether an IPv4 address is one of the public network: not private, shared,
/// local to a link or to the machine, for documentation, multicast or reserved.
pub open spec fn public_v4(a: int, b: int, c: int) -> bool {
    &&& a != 0 && a != 10 && a != 127
    &&& !(a == 100 && 64 <= b <= 127)
    &&& !(a == 169 && b == 254)
    &&& !(a == 172 && 16 <= b <= 31)
    &&& !(a == 192 && b == 168)
    &&& !(a == 192 && b == 0 && (c == 0 || c == 2))
    &&& !(a == 198 && (b == 18 || b == 19))
    &&& !(a == 198 && b == 51 && c == 100)
    &&& !(a == 203 && b == 0 && c == 113)
    &&& a < 224
}

/// Whether an IPv4 address is one of the public network.
pub fn is_public_v4(a: u8, b: u8, c: u8) -> (r: bool)
    ensures
        r == public_v4(a as int, b as int, c as int),
{
    if a == 0 || a == 10 || a == 127 || a >= 224 {
        false
    } else if a == 100 {
        !(64 <= b && b <= 127)
    } else if a == 169 {
        b != 254
    } else if a == 172 {
        !(16 <= b && b <= 31)
    } else if a == 192 {
        b != 168 && !(b == 0 && (c == 0 || c == 2))
    } else if a == 198 {
        b != 18 && b != 19 && !(b == 51 && c == 100)
    } else if a == 203 {
        !(b == 0 && c == 113)
    } else {
        true
    }
}

/// Whether the first `n` segments are zero.
pub open spec fn zero_segments(s: Seq<u16>, n: int) -> bool {
    forall|i: int| 0 <= i < n ==> #[trigger] s[i] == 0
}

/// Whether an IPv6 address is one of the public network: not the machine itself,
/// not local to a site or a link, not multicast, and not a name for an IPv4 address
/// that is none.
pub open spec fn public_v6(s: Seq<u16>) -> bool {
    if zero_segments(s, 5) && s[5] == 0xffff {
        public_v4(s[6] as int / 256, s[6] as int % 256, s[7] as int / 256)
    } else {
        &&& !(zero_segments(s, 7) && s[7] <= 1)
        &&& !(0xfc00 <= s[0] <= 0xfdff)
        &&& !(0xfe80 <= s[0] <= 0xfebf)
        &&& s[0] < 0xff00
    }
}

/// Whether an IPv6 address, given by its eight segments, is one of the public
/// network.
pub fn is_public_v6(segments: &[u16; 8]) -> (r: bool)
    ensures
        r == public_v6(segments@),
{
    let ghost s = segments@;
    let low: bool = segments[0] == 0 && segments[1] == 0 && segments[2] == 0 && segments[3] == 0
        && segments[4] == 0;
    assert(low == zero_segments(s, 5)) by {
        if low {
            assert(s[0] == 0 && s[1] == 0 && s[2] == 0 && s[3] == 0 && s[4] == 0);
        } else {
            assert(s[0] != 0 || s[1] != 0 || s[2] != 0 || s[3] != 0 || s[4] != 0);
        }
    }
    if low && segments[5] == 0xffff {
        return is_public_v4(
            (segments[6] / 256) as u8,
            (segments[6] % 256) as u8,
            (segments[7] / 256) as u8,
        );
    }
    let zero: bool = low && segments[5] == 0 && segments[6] == 0;
    assert(zero == zero_segments(s, 7)) by {
        if zero {
            assert(s[5] == 0 && s[6] == 0);
        } else {
            assert(!low || s[5] != 0 || s[6] != 0);
        }
    }
    if zero && segments[7] <= 1 {
        return false;
    }
    if 0xfc00 <= segments[0] && segments[0] <= 0xfdff {
        return false;
    }
    if 0xfe80 <= segments[0] && segments[0] <= 0xfebf {
        return false;
    }
    segments[0] < 0xff00
}

// ---------------------------------------------------------------------------
// The outbox
// ---------------------------------------------------------------------------

/// Why a delivery cannot be sent again.
#[derive(Debug, Clone, Copy, PartialEq, Eq, Structural)]
pub enum RetryError {
    NotFound,
    AlreadyPending,
    InFlight,
    AlreadyDelivered,
}

impl RetryError {
    /// The reason in words.
    pub open spec fn text(self) -> Seq<char> {
        match self {
            RetryError::NotFound => "delivery not found"@,
            RetryError::AlreadyPending => "delivery is already pending"@,
            RetryError::InFlight => "delivery is in flight"@,
            RetryError::AlreadyDelivered => "delivery was already delivered"@,
        }
    }

    /// The reason in words.
    pub fn message(self) -> (r: &'static str)
        ensures
            r@ == self.text(),
    {
        match self {
            RetryError::NotFound => "delivery not found",
            RetryError::AlreadyPending => "delivery is already pending",
            RetryError::InFlight => "delivery is in flight",
            RetryError::AlreadyDelivered => "delivery was already delivered",
        }
    }
}

impl Clone for WebhookDelivery {
    fn clone(&self) -> (r: Self)
        ensures
            r == *self,
    {
        WebhookDelivery {
            id: self.id.clone(),
            event_id: self.event_id.clone(),
            event_type: self.event_type.clone(),
            url: self.url.clone(),
            payload_json: self.payload_json.clone(),
            status: self.status,
            attempts: self.attempts,
            max_attempts: self.max_attempts,
            next_attempt_at: self.next_attempt_at,
            last_status_code: self.last_status_code,
            last_error: self.last_error.clone(),
            created_at: self.created_at,
            updated_at: self.updated_at,
            delivered_at: self.delivered_at,
            tenant_id: self.tenant_id.clone(),
        }
    }
}

/// Whether the delivery has this id and belongs to the tenant.
pub open spec fn delivery_is(d: WebhookDelivery, id: Seq<char>, tenant: Seq<char>) -> bool {
    d.id@ == id && d.tenant_id@ == tenant
}

/// The position of the tenant's delivery with this id, from `i` on.
pub open spec fn delivery_from(
    s: Seq<WebhookDelivery>,
    id: Seq<char>,
    tenant: Seq<char>,
    i: int,
) -> Option<int>
    decreases s.len() - i,
{
    if i < 0 || i >= s.len() {
        None
    } else if delivery_is(s[i], id, tenant) {
        Some(i)
    } else {
        delivery_from(s, id, tenant, i + 1)
    }
}

/// The position of the tenant's delivery with this id.
pub fn find_delivery(outbox: &Vec<WebhookDelivery>, id: &str, tenant_id: &str) -> (r: Option<usize>)
    ensures
        match r {
            Some(i) => i < outbox@.len() && delivery_from(outbox@, id@, tenant_id@, 0) == Some(
                i as int,
            ) && delivery_is(outbox@[i as int], id@, tenant_id@),
            None => delivery_from(outbox@, id@, tenant_id@, 0) is None,
        },
{
    let mut i: usize = 0;
    while i < outbox.len()
        invariant
            i <= outbox@.len(),
            delivery_from(outbox@, id@, tenant_id@, 0) == delivery_from(
                outbox@,
                id@,
                tenant_id@,
                i as int,
            ),
        decreases outbox@.len() - i,
    {
        if str_eq(outbox[i].id.as_str(), id) && str_eq(outbox[i].tenant_id.as_str(), tenant_id) {
            return Some(i);
        }
        i += 1;
    }
    None
}

/// Why a delivery in this status cannot be sent again: only those that failed
/// can.
pub open spec fn retry_refusal(status: DeliveryStatus) -> Option<RetryError> {
    match status {
        DeliveryStatus::Pending => Some(RetryError::AlreadyPending),
        DeliveryStatus::InFlight => Some(RetryError::InFlight),
        DeliveryStatus::Delivered => Some(RetryError::AlreadyDelivered),
        DeliveryStatus::Failed => None,
        DeliveryStatus::DeadLettered => None,
    }
}

/// The delivery once it waits to be sent again, with all of its attempts.
pub open spec fn reset(d: WebhookDelivery, now: Timestamp) -> WebhookDelivery {
    WebhookDelivery {
        status: DeliveryStatus::Pending,
        attempts: 0,
        next_attempt_at: now,
        updated_at: now,
        ..d
    }
}

/// Puts a failed delivery of the tenant back among those that wait.
pub fn reset_for_retry_for_tenant(
    outbox: &mut Vec<WebhookDelivery>,
    id: &str,
    tenant_id: &str,
    now: Timestamp,
) -> (r: Result<WebhookDelivery, RetryError>)
    ensures
        match delivery_from(old(outbox)@, id@, tenant_id@, 0) {
            None => r == Err::<WebhookDelivery, RetryError>(RetryError::NotFound) && final(outbox)@
                == old(outbox)@,
            Some(i) => match retry_refusal(old(outbox)@[i].status) {
                Some(e) => r == Err::<WebhookDelivery, RetryError>(e) && final(outbox)@
                    == old(outbox)@,
                None => r == Ok::<WebhookDelivery, RetryError>(reset(old(outbox)@[i], now))
                    && final(outbox)@ == old(outbox)@.update(i, reset(old(outbox)@[i], now)),
            },
        },
{
    let i: usize = match find_delivery(outbox, id, tenant_id) {
        Some(i) => i,
        None => {
            return Err(RetryError::NotFound);
        },
    };
    match outbox[i].status {
        DeliveryStatus::Pending => {
            return Err(RetryError::AlreadyPending);
        },
        DeliveryStatus::InFlight => {
            return Err(RetryError::InFlight);
        },
        DeliveryStatus::Delivered => {
            return Err(RetryError::AlreadyDelivered);
        },
        _ => {},
    }
    let mut d = outbox[i].clone();
    d.status = DeliveryStatus::Pending;
    d.attempts = 0;
    d.next_attempt_at = now;
    d.updated_at = now;
    let shown = d.clone();
    outbox.set(i, d);
    Ok(shown)
}

/// Whether a delivery belongs to the tenant and passes the filter.
pub open spec fn delivery_listed(
    d: WebhookDelivery,
    tenant: Seq<char>,
    filter: Option<DeliveryStatus>,
) -> bool {
    d.tenant_id@ == tenant && (filter matches Some(v) ==> d.status == v)
}

/// The deliveries among the first `n` that are listed, in order.
pub open spec fn deliveries_listed(
    s: Seq<WebhookDelivery>,
    tenant: Seq<char>,
    filter: Option<DeliveryStatus>,
    n: int,
) -> Seq<WebhookDelivery>
    decreases n,
{
    if n <= 0 {
        Seq::empty()
    } else {
        let before = deliveries_listed(s, tenant, filter, n - 1);
        if delivery_listed(s[n - 1], tenant, filter) {
            before.push(s[n - 1])
        } else {
            before
        }
    }
}

/// The creation times of deliveries.
pub open spec fn creation_times(s: Seq<WebhookDelivery>) -> Seq<Timestamp> {
    s.map_values(|d: WebhookDelivery| d.created_at)
}

/// The deliveries at these positions.
pub open spec fn deliveries_at(s: Seq<WebhookDelivery>, order: Seq<usize>) -> Seq<WebhookDelivery> {
    order.map_values(|i: usize| s[i as int])
}

/// Whether the rows are the `limit` newest of all, newest first.
pub open spec fn newest_deliveries(
    rows: Seq<WebhookDelivery>,
    all: Seq<WebhookDelivery>,
    limit: int,
) -> bool {
    exists|order: Seq<usize>| #[trigger]
        newest_of(order, creation_times(all), limit) && rows == deliveries_at(all, order)
}

/// Whether these are the newest deliveries of the tenant that pass the filter,
/// newest first.
pub open spec fn deliveries_page(
    rows: Seq<WebhookDelivery>,
    outbox: Seq<WebhookDelivery>,
    tenant: Seq<char>,
    filter: Option<DeliveryStatus>,
    limit: int,
) -> bool {
    newest_deliveries(
        rows,
        deliveries_listed(outbox, tenant, filter, outbox.len() as int),
        limit,
    )
}

/// The newest deliveries of a tenant that pass the filter, newest first.
pub fn list_recent_for_tenant(
    outbox: &Vec<WebhookDelivery>,
    tenant_id: &str,
    limit: usize,
    filter: Option<DeliveryStatus>,
) -> (r: Vec<WebhookDelivery>)
    ensures
        deliveries_page(r@, outbox@, tenant_id@, filter, limit as int),
{
    let mut own: Vec<WebhookDelivery> = Vec::new();
    let mut times: Vec<Timestamp> = Vec::new();
    let mut i: usize = 0;
    while i < outbox.len()
        invariant
            i <= outbox@.len(),
            own@ == deliveries_listed(outbox@, tenant_id@, filter, i as int),
            times@.len() == own@.len(),
            forall|j: int| 0 <= j < own@.len() ==> (#[trigger] times@[j]) == own@[j].created_at,
        decreases outbox@.len() - i,
    {
        let d = &outbox[i];
        let passes = match filter {
            Some(v) => d.status == v,
            None => true,
        };
        if passes && str_eq(d.tenant_id.as_str(), tenant_id) {
            times.push(d.created_at);
            own.push(d.clone());
        }
        i += 1;
    }
    assert(times@ =~= creation_times(own@));
    let order = newest(&times, limit);
    let mut out: Vec<WebhookDelivery> = Vec::new();
    let mut i: usize = 0;
    while i < order.len()
        invariant
            i <= order@.len(),
            times@.len() == own@.len(),
            newest_of(order@, times@, limit as int),
            out@ == deliveries_at(own@, order@.take(i as int)),
        decreases order@.len() - i,
    {
        assert(order@[i as int] < times@.len());
        out.push(own[order[i]].clone());
        assert(out@ =~= deliveries_at(own@, order@.take(i as int + 1)));
        i += 1;
    }
    assert(order@.take(order@.len() as int) =~= order@);
    out
}

/// How many of the first `n` deliveries stand there.
pub open spec fn count_status(s: Seq<WebhookDelivery>, status: DeliveryStatus, n: int) -> int
    decreases n,
{
    if n <= 0 {
        0
    } else {
        count_status(s, status, n - 1) + if s[n - 1].status == status {
            1int
        } else {
            0int
        }
    }
}

/// The deliveries by where they stand.
pub fn status_counts(outbox: &Vec<WebhookDelivery>) -> (r: StatusCounts)
    ensures
        ({
            let n = outbox@.len() as int;
            &&& r.pending == count_status(outbox@, DeliveryStatus::Pending, n)
            &&& r.in_flight == count_status(outbox@, DeliveryStatus::InFlight, n)
            &&& r.delivered == count_status(outbox@, DeliveryStatus::Delivered, n)
            &&& r.failed == count_status(outbox@, DeliveryStatus::Failed, n)
            &&& r.dead_lettered == count_status(outbox@, DeliveryStatus::DeadLettered, n)
            &&& r.pending + r.in_flight + r.delivered + r.failed + r.dead_lettered == n
        }),
{
    let mut c = StatusCounts {
        pending: 0,
        in_flight: 0,
        delivered: 0,
        failed: 0,
        dead_lettered: 0,
    };
    let mut i: usize = 0;
    while i < outbox.len()
        invariant
            i <= outbox@.len(),
            c.pending == count_status(outbox@, DeliveryStatus::Pending, i as int),
            c.in_flight == count_status(outbox@, DeliveryStatus::InFlight, i as int),
            c.delivered == count_status(outbox@, DeliveryStatus::Delivered, i as int),
            c.failed == count_status(outbox@, DeliveryStatus::Failed, i as int),
            c.dead_lettered == count_status(outbox@, DeliveryStatus::DeadLettered, i as int),
            c.pending + c.in_flight + c.delivered + c.failed + c.dead_lettered == i,
        decreases outbox@.len() - i,
    {
        match outbox[i].status {
            DeliveryStatus::Pending => {
                c.pending = c.pending + 1;
            },
            DeliveryStatus::InFlight => {
                c.in_flight = c.in_flight + 1;
            },
            DeliveryStatus::Delivered => {
                c.delivered = c.delivered + 1;
            },
            DeliveryStatus::Failed => {
                c.failed = c.failed + 1;
            },
            DeliveryStatus::DeadLettered => {
                c.dead_lettered = c.dead_lettered + 1;
            },
        }
        i += 1;
    }
    c
}

/// The error that a refused retry is answered with.
pub open spec fn retry_error(e: RetryError, id: Seq<char>) -> ErrorView {
    match e {
        RetryError::NotFound => ErrorView::ResourceNotFound("webhook_delivery "@ + id),
        _ => ErrorView::PreconditionFailed(e.text()),
    }
}

/// The error that a refused retry is answered with.
pub fn retry_failure(e: RetryError, id: &str) -> (r: ApiError)
    ensures
        r@ == retry_error(e, id@),
{
    match e {
        RetryError::NotFound => ApiError::ResourceNotFound(join2("webhook_delivery ", id)),
        other => ApiError::PreconditionFailed(String::from_str(other.message())),
    }
}

// ---------------------------------------------------------------------------
// Laws
// ---------------------------------------------------------------------------

/// Events go only to the web: over `https`, or over plain `http` where the deployment allows
/// it.
pub proof fn law_destinations_are_on_the_web(rest: Seq<char>, allow_insecure: bool)
    ensures
        destination_error("https://"@ + rest, allow_insecure) is None,
        destination_error("http://"@ + rest, allow_insecure) is None <==> allow_insecure,
        !has_prefix(rest, "http://"@) && !has_prefix(rest, "https://"@) ==> destination_error(
            rest,
            allow_insecure,
        ) is Some,
{
    reveal_strlit("https://");
    reveal_strlit("http://");
    let s = "https://"@ + rest;
    let p = "http://"@ + rest;
    assert(s.take("https://"@.len() as int) =~= "https://"@);
    assert(p.take("http://"@.len() as int) =~= "http://"@);
    if has_prefix(p, "https://"@) {
        assert(p.take("https://"@.len() as int)[4] == p[4]);
    }
}

/// An address that belongs to no one on the public net is not public: this host and network,
/// private networks, shared and link-local addresses, those for documentation and tests, and
/// everything from multicast on.
pub proof fn law_private_addresses_are_not_public(a: int, b: int, c: int)
    ensures
        a == 0 || a == 10 || a == 127 || a >= 224 ==> !public_v4(a, b, c),
        a == 100 && 64 <= b < 128 ==> !public_v4(a, b, c),
        a == 169 && b == 254 ==> !public_v4(a, b, c),
        a == 172 && 16 <= b < 32 ==> !public_v4(a, b, c),
        a == 192 && b == 168 ==> !public_v4(a, b, c),
        a == 192 && b == 0 && (c == 0 || c == 2) ==> !public_v4(a, b, c),
        a == 198 && (b == 18 || b == 19) ==> !public_v4(a, b, c),
        a == 198 && b == 51 && c == 100 ==> !public_v4(a, b, c),
        a == 203 && b == 0 && c == 113 ==> !public_v4(a, b, c),
        1 <= a < 224 && a != 10 && a != 100 && a != 127 && a != 169 && a != 172 && a != 192 && a
            != 198 && a != 203 ==> public_v4(a, b, c),
        a == 172 && (b < 16 || b >= 32) ==> public_v4(a, b, c),
        a == 100 && (b < 64 || b >= 128) ==> public_v4(a, b, c),
        a == 169 && b != 254 ==> public_v4(a, b, c),
        a == 192 && b != 168 && b != 0 ==> public_v4(a, b, c),
        a == 192 && b == 0 && c != 0 && c != 2 ==> public_v4(a, b, c),
        a == 198 && b != 18 && b != 19 && b != 51 ==> public_v4(a, b, c),
        a == 203 && b != 0 ==> public_v4(a, b, c),
{
}

/// The same of the longer addresses: the unspecified one and this host, unique local and
/// link-local ones and multicast are not public, and one that stands for a shorter address is
/// judged by that.
pub proof fn law_private_long_addresses_are_not_public(s: Seq<u16>)
    requires
        s.len() == 8,
    ensures
        s[0] == 0 && s[1] == 0 && s[2] == 0 && s[3] == 0 && s[4] == 0 && s[5] == 0xffff ==> (
        public_v6(s) <==> public_v4(s[6] as int / 256, s[6] as int % 256, s[7] as int / 256)),
        s[0] == 0 && s[1] == 0 && s[2] == 0 && s[3] == 0 && s[4] == 0 && s[5] == 0 && s[6] == 0 && (
        s[7] == 0 || s[7] == 1) ==> !public_v6(s),
        0xfc00 <= s[0] < 0xfe00 ==> !public_v6(s),
        0xfe80 <= s[0] < 0xfec0 ==> !public_v6(s),
        s[0] >= 0xff00 ==> !public_v6(s),
        1 <= s[0] < 0xfc00 ==> public_v6(s),
{
    if s[0] == 0 && s[1] == 0 && s[2] == 0 && s[3] == 0 && s[4] == 0 {
        assert(zero_segments(s, 5)) by {
            assert forall|i: int| 0 <= i < 5 implies #[trigger] s[i] == 0 by {}
        }
        if s[5] == 0 && s[6] == 0 {
            assert(zero_segments(s, 7)) by {
                assert forall|i: int| 0 <= i < 7 implies #[trigger] s[i] == 0 by {}
            }
        }
    }
    if s[0] != 0 {
        assert(!zero_segments(s, 5) && !zero_segments(s, 7));
    }
}

/// A delivery is found exactly when the tenant has one of that id, and it is the first one.
pub proof fn law_deliveries_are_found_by_their_tenant(
    s: Seq<WebhookDelivery>,
    id: Seq<char>,
    tenant: Seq<char>,
    from: int,
)
    requires
        0 <= from <= s.len(),
    ensures
        match delivery_from(s, id, tenant, from) {
            Some(i) => from <= i < s.len() && s[i].id@ == id && s[i].tenant_id@ == tenant && (forall|
                j: int,
            |
                from <= j < i ==> !((#[trigger] s[j]).id@ == id && s[j].tenant_id@ == tenant)),
            None => forall|j: int|
                from <= j < s.len() ==> !((#[trigger] s[j]).id@ == id && s[j].tenant_id@
                    == tenant),
        },
    decreases s.len() - from,
{
    if from < s.len() && !delivery_is(s[from], id, tenant) {
        law_deliveries_are_found_by_their_tenant(s, id, tenant, from + 1);
    }
}

/// Only a delivery that failed or was given up can be tried again. It then waits as a new one
/// does, for the same event and to the same place.
pub proof fn law_failed_deliveries_can_be_tried_again(d: WebhookDelivery, now: Timestamp)
    ensures
        retry_refusal(d.status) is None <==> d.status is Failed || d.status is DeadLettered,
        ({
            let again = reset(d, now);
            &&& again.status is Pending && again.attempts == 0 && again.next_attempt_at == now
                && again.updated_at == now
            &&& again.id == d.id && again.event_id == d.event_id && again.url == d.url
                && again.payload_json == d.payload_json && again.tenant_id == d.tenant_id
                && again.max_attempts == d.max_attempts && again.created_at == d.created_at
        }),
{
}

/// The deliveries of a list are those of the tenant that pass the filter.
pub proof fn law_listed_deliveries_pass_the_filter(
    s: Seq<WebhookDelivery>,
    tenant: Seq<char>,
    filter: Option<DeliveryStatus>,
    n: int,
    d: WebhookDelivery,
)
    requires
        0 <= n <= s.len(),
    ensures
        deliveries_listed(s, tenant, filter, n).contains(d) <==> (exists|i: int|
            0 <= i < n && #[trigger] s[i] == d) && d.tenant_id@ == tenant && (filter matches Some(v)
            ==> d.status == v),
        deliveries_listed(s, tenant, filter, n).len() <= n,
    decreases n,
{
    if n > 0 {
        law_listed_deliveries_pass_the_filter(s, tenant, filter, n - 1, d);
        let before = deliveries_listed(s, tenant, filter, n - 1);
        let all = deliveries_listed(s, tenant, filter, n);
        if delivery_listed(s[n - 1], tenant, filter) {
            assert(all[before.len() as int] == s[n - 1]);
            if before.contains(d) {
                let i = choose|i: int| 0 <= i < before.len() && before[i] == d;
                assert(all[i] == d);
            }
            if all.contains(d) && d != s[n - 1] {
                let i = choose|i: int| 0 <= i < all.len() && all[i] == d;
                assert(before[i] == d);
            }
        }
    }
}

/// A page of deliveries holds as many of the listed ones as fit, newest first.
pub proof fn law_delivery_pages_are_newest_first(
    rows: Seq<WebhookDelivery>,
    outbox: Seq<WebhookDelivery>,
    tenant: Seq<char>,
    filter: Option<DeliveryStatus>,
    limit: int,
)
    requires
        deliveries_page(rows, outbox, tenant, filter, limit),
        0 <= limit,
    ensures
        ({
            let all = deliveries_listed(outbox, tenant, filter, outbox.len() as int);
            &&& rows.len() == (if limit <= all.len() {
                limit
            } else {
                all.len() as int
            })
            &&& forall|i: int| 0 <= i < rows.len() ==> all.contains(#[trigger] rows[i])
            &&& forall|i: int, j: int|
                0 <= i < j < rows.len() ==> (#[trigger] rows[i]).created_at@ >= (
                #[trigger] rows[j]).created_at@
        }),
{
    let all = deliveries_listed(outbox, tenant, filter, outbox.len() as int);
    let order = choose|order: Seq<usize>| #[trigger]
        newest_of(order, creation_times(all), limit) && rows == deliveries_at(all, order);
    let times = creation_times(all);
    assert forall|i: int| 0 <= i < rows.len() implies all.contains(#[trigger] rows[i]) by {
        assert(rows[i] == all[order[i] as int]);
    }
    assert forall|i: int, j: int| 0 <= i < j < rows.len() implies (#[trigger] rows[i]).created_at@
        >= (#[trigger] rows[j]).created_at@ by {
        assert(rows[i] == all[order[i] as int] && rows[j] == all[order[j] as int]);
        assert(times[order[i] as int]@ >= times[order[j] as int]@);
    }
}

} // verus!
