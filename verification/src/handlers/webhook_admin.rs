//! Webhook deliveries and subscribers, each as the tenant that asks. The secret
//! of a subscriber is shown once, when it is created.

use vstd::prelude::*;

use crate::errors::{ApiError, ErrorView};
use crate::events::{DeliveryStatus, WebhookDelivery, WebhookSubscriber};
use crate::listing::{page_limit, page_size};
use crate::service::helpers::missing;
use crate::service::IcpService;
use crate::table::picked;
use crate::text::{is_blank, join3, opt_text, str_eq, trim, trimmed};
use crate::time::Timestamp;
use crate::webhook::{
    deliveries_page, delivery_from, destination_error, find_delivery, list_recent_for_tenant,
    reset, reset_for_retry_for_tenant, retry_error, retry_failure, retry_refusal,
    validate_destination_url, RetryError,
};

verus! {

// ---------------------------------------------------------------------------
// Deliveries
// ---------------------------------------------------------------------------

/// Which deliveries are listed.
#[derive(Debug)]
pub struct ListDeliveriesQuery {
    /// One of `pending|in_flight|delivered|failed|dead_lettered`; all of them
    /// when absent or empty.
    pub status: Option<String>,
    /// Size of the page, a hundred by default and at most five hundred.
    pub limit: Option<usize>,
}

/// The error for a filter that names nothing.
pub open spec fn delivery_filter_error(s: Seq<char>) -> ErrorView {
    ErrorView::InvalidRequest(
        "unknown status filter '"@ + s
            + "' — expected one of pending|in_flight|delivered|failed|dead_lettered"@,
    )
}

/// The status that a filter names.
pub fn parse_status_filter(s: &str) -> (r: Result<DeliveryStatus, ApiError>)
    ensures
        match r {
            Ok(v) => v.name() == s@,
            Err(e) => (forall|v: DeliveryStatus| #[trigger] v.name() != s@) && e@
                == delivery_filter_error(s@),
        },
{
    if str_eq(s, "pending") {
        Ok(DeliveryStatus::Pending)
    } else if str_eq(s, "in_flight") {
        Ok(DeliveryStatus::InFlight)
    } else if str_eq(s, "delivered") {
        Ok(DeliveryStatus::Delivered)
    } else if str_eq(s, "failed") {
        Ok(DeliveryStatus::Failed)
    } else if str_eq(s, "dead_lettered") {
        Ok(DeliveryStatus::DeadLettered)
    } else {
        Err(
            ApiError::InvalidRequest(
                join3(
                    "unknown status filter '",
                    s,
                    "' — expected one of pending|in_flight|delivered|failed|dead_lettered",
                ),
            ),
        )
    }
}

impl IcpService {
    /// The newest deliveries of a tenant, newest first. A filter that names
    /// nothing is refused.
    pub fn list_webhook_deliveries(&self, tenant_id: &str, query: &ListDeliveriesQuery) -> (r: Result<
        Vec<WebhookDelivery>,
        ApiError,
    >)
        ensures
            ({
                let wanted = match query.status {
                    Some(s) => s@,
                    None => Seq::empty(),
                };
                let limit = page_size(query.limit);
                match r {
                    Ok(rows) => if wanted.len() == 0 {
                        deliveries_page(rows@, self.webhook_outbox@, tenant_id@, None, limit)
                    } else {
                        exists|v: DeliveryStatus|
                            #[trigger]
                            v.name() == wanted && deliveries_page(
                                rows@,
                                self.webhook_outbox@,
                                tenant_id@,
                                Some(v),
                                limit,
                            )
                    },
                    Err(e) => wanted.len() > 0 && (forall|v: DeliveryStatus| #[trigger]
                        v.name() != wanted) && e@ == delivery_filter_error(wanted),
                }
            }),
    {
        let filter = match &query.status {
            None => None,
            Some(s) => if s.as_str().is_empty() {
                None
            } else {
                match parse_status_filter(s.as_str()) {
                    Ok(v) => {
                        assert(v.name() == s@);
                        Some(v)
                    },
                    Err(e) => {
                        return Err(e);
                    },
                }
            },
        };
        Ok(
            list_recent_for_tenant(
                &self.webhook_outbox,
                tenant_id,
                page_limit(query.limit),
                filter,
            ),
        )
    }

    /// One delivery, for the tenant that it belongs to.
    pub fn get_webhook_delivery(&self, tenant_id: &str, id: &str) -> (r: Result<
        WebhookDelivery,
        ApiError,
    >)
        ensures
            match delivery_from(self.webhook_outbox@, id@, tenant_id@, 0) {
                Some(i) => r == Ok::<WebhookDelivery, ApiError>(self.webhook_outbox@[i]),
                None => r matches Err(e) && e@ == missing("webhook_delivery"@, id@),
            },
    {
        match find_delivery(&self.webhook_outbox, id, tenant_id) {
            Some(i) => Ok(self.webhook_outbox[i].clone()),
            None => Err(ApiError::ResourceNotFound(join3("webhook_delivery", " ", id))),
        }
    }

    /// Puts a failed delivery of the tenant back among those that wait.
    pub fn retry_webhook_delivery(&mut self, tenant_id: &str, id: &str, now: Timestamp) -> (r: Result<
        WebhookDelivery,
        ApiError,
    >)
        ensures
            *final(self) == (IcpService { webhook_outbox: final(self).webhook_outbox, ..*old(self) }),
            ({
                let outbox = old(self).webhook_outbox@;
                match delivery_from(outbox, id@, tenant_id@, 0) {
                    None => {
                        &&& r matches Err(e) && e@ == retry_error(RetryError::NotFound, id@)
                        &&& final(self).webhook_outbox@ == outbox
                    },
                    Some(i) => match retry_refusal(outbox[i].status) {
                        Some(x) => {
                            &&& r matches Err(e) && e@ == retry_error(x, id@)
                            &&& final(self).webhook_outbox@ == outbox
                        },
                        None => {
                            &&& r == Ok::<WebhookDelivery, ApiError>(reset(outbox[i], now))
                            &&& final(self).webhook_outbox@ == outbox.update(
                                i,
                                reset(outbox[i], now),
                            )
                        },
                    },
                }
            }),
    {
        match reset_for_retry_for_tenant(&mut self.webhook_outbox, id, tenant_id, now) {
            Ok(d) => Ok(d),
            Err(e) => Err(retry_failure(e, id)),
        }
    }
}

// ---------------------------------------------------------------------------
// Subscribers
// ---------------------------------------------------------------------------

/// A subscriber that is to be registered.
#[derive(Debug)]
pub struct CreateSubscriberBody {
    pub url: String,
    pub secret: String,
}

/// Changes to a subscriber; what is absent stays.
#[derive(Debug)]
pub struct UpdateSubscriberBody {
    pub url: Option<String>,
    pub secret: Option<String>,
}

/// The error for a blank secret.
pub open spec fn blank_secret() -> ErrorView {
    ErrorView::InvalidRequest(
        "secret must be non-empty — events are HMAC-signed and the receiver needs the same secret to verify"@,
    )
}

fn blank_secret_error() -> (e: ApiError)
    ensures
        e@ == blank_secret(),
{
    ApiError::InvalidRequest(
        String::from_str(
            "secret must be non-empty — events are HMAC-signed and the receiver needs the same secret to verify",
        ),
    )
}

/// Why a destination and a secret are refused.
pub open spec fn subscriber_error(
    url: Option<Seq<char>>,
    secret: Option<Seq<char>>,
    allow_insecure: bool,
) -> Option<ErrorView> {
    if url is Some && destination_error(trimmed(url->0), allow_insecure) is Some {
        Some(ErrorView::InvalidRequest(destination_error(trimmed(url->0), allow_insecure)->0))
    } else if secret is Some && trimmed(secret->0).len() == 0 {
        Some(blank_secret())
    } else {
        None
    }
}

/// Whether the tenant owns a subscriber with this id.
pub open spec fn owns_subscriber(
    m: Map<Seq<char>, WebhookSubscriber>,
    id: Seq<char>,
    tenant: Seq<char>,
) -> bool {
    m.contains_key(id) && m[id].tenant_id@ == tenant
}

/// The subscriber without its secret.
pub open spec fn redacted(s: WebhookSubscriber) -> WebhookSubscriber {
    WebhookSubscriber { secret: None, ..s }
}

/// The subscriber without its secret.
fn redact(s: &WebhookSubscriber) -> (r: WebhookSubscriber)
    ensures
        r == redacted(*s),
{
    let mut r = s.clone();
    r.secret = None;
    r
}

/// Whether a subscriber belongs to the tenant.
pub open spec fn subscriber_listed(tenant: Seq<char>) -> spec_fn(WebhookSubscriber) -> bool {
    |s: WebhookSubscriber| s.tenant_id@ == tenant
}

/// The changed subscriber: with the new destination and secret as far as they
/// are given, without surrounding white space.
pub open spec fn patched(
    before: WebhookSubscriber,
    s: WebhookSubscriber,
    body: UpdateSubscriberBody,
    now: Timestamp,
) -> bool {
    &&& s == (WebhookSubscriber { url: s.url, secret: s.secret, updated_at: now, ..before })
    &&& match body.url {
        Some(u) => s.url@ == trimmed(u@),
        None => s.url == before.url,
    }
    &&& match body.secret {
        Some(x) => s.secret matches Some(y) && y@ == trimmed(x@),
        None => s.secret == before.secret,
    }
}

impl IcpService {
    /// Registers a destination for the events of a tenant. This reply alone
    /// carries the secret.
    pub fn create_webhook_subscriber(
        &mut self,
        tenant_id: &str,
        body: CreateSubscriberBody,
        now: Timestamp,
        id: String,
    ) -> (r: Result<WebhookSubscriber, ApiError>)
        ensures
            *final(self) == (IcpService {
                webhook_subscribers: final(self).webhook_subscribers,
                ..*old(self)
            }),
            ({
                let error = subscriber_error(
                    Some(body.url@),
                    Some(body.secret@),
                    old(self).config.allow_insecure_urls,
                );
                match r {
                    Ok(s) => {
                        &&& error is None
                        &&& s.id == id
                        &&& s.tenant_id@ == tenant_id@
                        &&& s.url@ == trimmed(body.url@)
                        &&& s.secret == Some(body.secret)
                        &&& s.active
                        &&& s.created_at == now
                        &&& s.updated_at == now
                        &&& final(self).webhook_subscribers@ == old(self).webhook_subscribers@.insert(id@, s)
                    },
                    Err(e) => error == Some(e@) && final(self).webhook_subscribers@ == old(self).webhook_subscribers@,
                }
            }),
    {
        let url = trim(body.url.as_str());
        match validate_destination_url(url, self.config.allow_insecure_urls) {
            Ok(()) => {},
            Err(m) => {
                return Err(ApiError::InvalidRequest(m));
            },
        }
        if is_blank(body.secret.as_str()) {
            return Err(blank_secret_error());
        }
        let key = id.clone();
        let s = WebhookSubscriber {
            id,
            tenant_id: String::from_str(tenant_id),
            url: String::from_str(url),
            secret: Some(body.secret),
            active: true,
            created_at: now,
            updated_at: now,
        };
        let shown = s.clone();
        self.webhook_subscribers.insert(key, s);
        Ok(shown)
    }

    /// The subscribers of a tenant, without their secrets, in the order in which
    /// they were registered.
    pub fn list_webhook_subscribers(&self, tenant_id: &str) -> (r: Vec<WebhookSubscriber>)
        ensures
            ({
                let m = self.webhook_subscribers;
                let keys = picked(
                    m.seq(),
                    subscriber_listed(tenant_id@),
                    m.seq().len() as int,
                );
                &&& r@.len() == keys.len()
                &&& forall|i: int|
                    0 <= i < keys.len() ==> m@.contains_key(keys[i]) && #[trigger] r@[i]
                        == redacted(m@[keys[i]]) && r@[i].tenant_id@ == tenant_id@
            }),
    {
        let m = &self.webhook_subscribers;
        let n: usize = m.len();
        let mut out: Vec<WebhookSubscriber> = Vec::new();
        let mut i: usize = 0;
        while i < n
            invariant
                i <= n == m.seq().len(),
                out@.len() == picked(m.seq(), subscriber_listed(tenant_id@), i as int).len(),
                forall|j: int|
                    0 <= j < out@.len() ==> ({
                        let k = picked(m.seq(), subscriber_listed(tenant_id@), i as int)[j];
                        m@.contains_key(k) && #[trigger] out@[j] == redacted(m@[k])
                            && out@[j].tenant_id@ == tenant_id@
                    }),
            decreases n - i,
        {
            let e = m.entry_at(i);
            if str_eq(e.value.tenant_id.as_str(), tenant_id) {
                out.push(redact(&e.value));
            }
            i += 1;
        }
        out
    }

    /// One subscriber without its secret, for the tenant that it belongs to.
    pub fn get_webhook_subscriber(&self, tenant_id: &str, id: &str) -> (r: Result<
        WebhookSubscriber,
        ApiError,
    >)
        ensures
            match r {
                Ok(s) => owns_subscriber(self.webhook_subscribers@, id@, tenant_id@) && s
                    == redacted(self.webhook_subscribers@[id@]),
                Err(e) => !owns_subscriber(self.webhook_subscribers@, id@, tenant_id@) && e@
                    == missing("webhook_subscriber"@, id@),
            },
    {
        match self.webhook_subscribers.get(id) {
            Some(s) => if str_eq(s.tenant_id.as_str(), tenant_id) {
                Ok(redact(s))
            } else {
                Err(ApiError::ResourceNotFound(join3("webhook_subscriber", " ", id)))
            },
            None => Err(ApiError::ResourceNotFound(join3("webhook_subscriber", " ", id))),
        }
    }

    /// Changes the destination or the secret of a subscriber under the same id.
    /// What is wrong with the request is said before whether the subscriber
    /// exists.
    pub fn update_webhook_subscriber(
        &mut self,
        tenant_id: &str,
        id: &str,
        body: UpdateSubscriberBody,
        now: Timestamp,
    ) -> (r: Result<WebhookSubscriber, ApiError>)
        ensures
            *final(self) == (IcpService {
                webhook_subscribers: final(self).webhook_subscribers,
                ..*old(self)
            }),
            ({
                let m = old(self).webhook_subscribers@;
                let error = subscriber_error(
                    opt_text(body.url),
                    opt_text(body.secret),
                    old(self).config.allow_insecure_urls,
                );
                match r {
                    Ok(s) => {
                        let kept = final(self).webhook_subscribers@[id@];
                        &&& error is None
                        &&& owns_subscriber(m, id@, tenant_id@)
                        &&& final(self).webhook_subscribers@ == m.insert(id@, kept)
                        &&& patched(m[id@], kept, body, now)
                        &&& s == redacted(kept)
                    },
                    Err(e) => {
                        &&& final(self).webhook_subscribers@ == m
                        &&& if error is Some {
                            error == Some(e@)
                        } else {
                            !owns_subscriber(m, id@, tenant_id@) && e@ == missing(
                                "webhook_subscriber"@,
                                id@,
                            )
                        }
                    },
                }
            }),
    {
        let ghost m = self.webhook_subscribers@;
        match &body.url {
            Some(u) => match validate_destination_url(
                trim(u.as_str()),
                self.config.allow_insecure_urls,
            ) {
                Ok(()) => {},
                Err(x) => {
                    return Err(ApiError::InvalidRequest(x));
                },
            },
            None => {},
        }
        match &body.secret {
            Some(x) => {
                if is_blank(x.as_str()) {
                    return Err(blank_secret_error());
                }
            },
            None => {},
        }
        match self.get_webhook_subscriber(tenant_id, id) {
            Ok(_) => {},
            Err(e) => {
                return Err(e);
            },
        }
        match self.webhook_subscribers.remove(id) {
            Some(mut s) => {
                match &body.url {
                    Some(u) => {
                        s.url = String::from_str(trim(u.as_str()));
                    },
                    None => {},
                }
                match &body.secret {
                    Some(x) => {
                        s.secret = Some(String::from_str(trim(x.as_str())));
                    },
                    None => {},
                }
                s.updated_at = now;
                let shown = redact(&s);
                self.webhook_subscribers.insert(String::from_str(id), s);
                assert(self.webhook_subscribers@ =~= m.insert(id@, s));
                Ok(shown)
            },
            None => Err(ApiError::ResourceNotFound(join3("webhook_subscriber", " ", id))),
        }
    }

    /// Switches a subscriber on or off.
    pub fn set_webhook_subscriber_active(
        &mut self,
        tenant_id: &str,
        id: &str,
        active: bool,
        now: Timestamp,
    ) -> (r: Result<WebhookSubscriber, ApiError>)
        ensures
            *final(self) == (IcpService {
                webhook_subscribers: final(self).webhook_subscribers,
                ..*old(self)
            }),
            ({
                let m = old(self).webhook_subscribers@;
                match r {
                    Ok(s) => {
                        let kept = WebhookSubscriber { active, updated_at: now, ..m[id@] };
                        &&& owns_subscriber(m, id@, tenant_id@)
                        &&& final(self).webhook_subscribers@ == m.insert(id@, kept)
                        &&& s == redacted(kept)
                    },
                    Err(e) => {
                        &&& !owns_subscriber(m, id@, tenant_id@)
                        &&& e@ == missing("webhook_subscriber"@, id@)
                        &&& final(self).webhook_subscribers@ == m
                    },
                }
            }),
    {
        let ghost m = self.webhook_subscribers@;
        match self.get_webhook_subscriber(tenant_id, id) {
            Ok(_) => {},
            Err(e) => {
                return Err(e);
            },
        }
        match self.webhook_subscribers.remove(id) {
            Some(mut s) => {
                s.active = active;
                s.updated_at = now;
                let shown = redact(&s);
                self.webhook_subscribers.insert(String::from_str(id), s);
                assert(self.webhook_subscribers@ =~= m.insert(id@, s));
                Ok(shown)
            },
            None => Err(ApiError::ResourceNotFound(join3("webhook_subscriber", " ", id))),
        }
    }

    /// Takes out a subscriber.
    pub fn delete_webhook_subscriber(&mut self, tenant_id: &str, id: &str) -> (r: Result<
        (),
        ApiError,
    >)
        ensures
            *final(self) == (IcpService {
                webhook_subscribers: final(self).webhook_subscribers,
                ..*old(self)
            }),
            ({
                let m = old(self).webhook_subscribers@;
                match r {
                    Ok(()) => owns_subscriber(m, id@, tenant_id@) && final(self).webhook_subscribers@ == m.remove(id@),
                    Err(e) => !owns_subscriber(m, id@, tenant_id@) && e@ == missing(
                        "webhook_subscriber"@,
                        id@,
                    ) && final(self).webhook_subscribers@ == m,
                }
            }),
    {
        match self.get_webhook_subscriber(tenant_id, id) {
            Ok(_) => {},
            Err(e) => {
                return Err(e);
            },
        }
        let _ = self.webhook_subscribers.remove(id);
        Ok(())
    }
}

// ---------------------------------------------------------------------------
// Laws
// ---------------------------------------------------------------------------

/// No two statuses share a name: what a filter lists is determined by its text.
pub proof fn law_delivery_filters_are_wire_names(a: DeliveryStatus, b: DeliveryStatus)
    ensures
        a.name() == b.name() <==> a == b,
{
    reveal_strlit("pending");
    reveal_strlit("in_flight");
    reveal_strlit("delivered");
    reveal_strlit("failed");
    reveal_strlit("dead_lettered");
    assert("pending"@.len() == 7 && "in_flight"@.len() == 9 && "delivered"@.len() == 9);
    assert("failed"@.len() == 6 && "dead_lettered"@.len() == 13);
    assert("in_flight"@[0] == 'i' && "delivered"@[0] == 'd');
}

/// A retried delivery waits again with all of its attempts, and cannot be retried
/// a second time before it was tried.
pub proof fn law_retries_are_not_doubled(
    outbox: Seq<WebhookDelivery>,
    i: int,
    now: Timestamp,
)
    requires
        0 <= i < outbox.len(),
        retry_refusal(outbox[i].status) is None,
    ensures
        retry_refusal(reset(outbox[i], now).status) == Some(RetryError::AlreadyPending),
        reset(outbox[i], now).attempts == 0,
        reset(outbox[i], now).id == outbox[i].id,
{
}

/// Disabling and enabling a subscriber again leaves its destination and its
/// secret alone.
pub proof fn law_disabling_is_undone_by_enabling(s: WebhookSubscriber, a: Timestamp, b: Timestamp)
    requires
        s.active,
    ensures
        ({
            let off = WebhookSubscriber { active: false, updated_at: a, ..s };
            let on = WebhookSubscriber { active: true, updated_at: b, ..off };
            on == WebhookSubscriber { updated_at: b, ..s }
        }),
{
}

/// A subscriber is accepted exactly when its address may be sent to and its secret holds
/// something; what an update leaves out is not asked of it.
pub proof fn law_subscribers_need_an_address_and_a_secret(
    url: Option<Seq<char>>,
    secret: Option<Seq<char>>,
    allow_insecure: bool,
)
    ensures
        subscriber_error(url, secret, allow_insecure) is None <==> (url matches Some(u)
            ==> destination_error(trimmed(u), allow_insecure) is None) && (secret matches Some(x)
            ==> trimmed(x).len() > 0),
        subscriber_error(url, secret, allow_insecure) matches Some(e) ==> e is InvalidRequest,
{
}

/// An update changes exactly what it gives, without white space around it, and the date.
pub proof fn law_updates_change_what_they_give(
    before: WebhookSubscriber,
    s: WebhookSubscriber,
    body: UpdateSubscriberBody,
    now: Timestamp,
)
    requires
        patched(before, s, body, now),
    ensures
        body.url matches Some(u) ==> s.url@ == trimmed(u@),
        body.url is None ==> s.url == before.url,
        body.secret matches Some(x) ==> (s.secret matches Some(y) && y@ == trimmed(x@)),
        body.secret is None ==> s.secret == before.secret,
        s.id == before.id && s.tenant_id == before.tenant_id && s.active == before.active
            && s.created_at == before.created_at && s.updated_at == now,
{
}

/// A subscriber is shown without its secret, and otherwise as it is.
pub proof fn law_secrets_are_not_shown(s: WebhookSubscriber)
    ensures
        redacted(s).secret is None,
        redacted(s).id == s.id && redacted(s).url == s.url && redacted(s).active == s.active
            && redacted(s).tenant_id == s.tenant_id && redacted(s).created_at == s.created_at
            && redacted(s).updated_at == s.updated_at,
{
}

/// A subscriber belongs to the tenant that registered it and to no other.
pub proof fn law_subscribers_belong_to_their_tenant(
    m: Map<Seq<char>, WebhookSubscriber>,
    id: Seq<char>,
    tenant: Seq<char>,
)
    ensures
        owns_subscriber(m, id, tenant) <==> m.contains_key(id) && m[id].tenant_id@ == tenant,
        m.contains_key(id) ==> subscriber_listed(tenant)(m[id]) == (m[id].tenant_id@ == tenant),
{
}

} // verus!
