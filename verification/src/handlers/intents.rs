//! The submission of an intent: limits, identity, and the headers around it.

use vstd::prelude::*;

use crate::agent::{AgentIdentifier, ApiKeyInfo, ApiKeyStore};
use crate::config::Config;
use crate::errors::{ApiError, ErrorView};
use crate::handlers::{
    agent_refused, bearer_of, client_bucket, client_ip_for_rate_limit, ensure_agent_allowed,
    permits, resolve_agent, resolve_tenant, tenant_error,
};
use crate::idempotency::ReserveOutcome;
use crate::models::ReceiptStub;
use crate::numerals::{nat_text, nat_to_text};
use crate::rate_limit::{asked, RateLimitDecision};
use crate::service::IcpService;
use crate::text::{join5, opt_text, str_eq};
use crate::time::Timestamp;

verus! {

/// The headers of a submission that the protocol reads.
#[derive(Debug)]
pub struct SubmitHeaders {
    pub authorization: Option<String>,
    pub agent_id: Option<String>,
    pub version: Option<String>,
    pub mandate: Option<String>,
    pub request_id: Option<String>,
    pub trace_id: Option<String>,
    pub idempotency_key: Option<String>,
    pub forwarded_for: Option<String>,
    pub real_ip: Option<String>,
}

/// A header of a reply.
#[derive(Debug)]
pub struct Header {
    pub name: &'static str,
    pub value: String,
}

/// A caller whose intent may be executed.
#[derive(Debug)]
pub struct OpenSubmission {
    pub tenant: ApiKeyInfo,
    pub agent: AgentIdentifier,
    pub mandate_jws: Option<String>,
    pub request_id: String,
    pub trace_id: Option<String>,
    pub idempotency_key: Option<String>,
    /// The headers that tell the caller of its limit.
    pub limit_headers: Vec<Header>,
}

/// What the opening of a submission came to.
#[derive(Debug)]
pub enum Submission {
    /// Too many requests; the reply carries these headers.
    Limited(Vec<Header>),
    Refused(ApiError),
    Open(OpenSubmission),
}

// ---------------------------------------------------------------------------
// Limits
// ---------------------------------------------------------------------------

/// The headers as names and values.
pub open spec fn header_views(h: Seq<Header>) -> Seq<(Seq<char>, Seq<char>)> {
    h.map_values(|x: Header| (x.name@, x.value@))
}

/// The headers that tell a caller of its limit. A refusal says how long to wait;
/// one from before authentication says so.
pub open spec fn limit_headers(d: RateLimitDecision, pre_auth: bool) -> Seq<
    (Seq<char>, Seq<char>),
> {
    match d {
        RateLimitDecision::Allowed { limit, remaining, reset_in_secs } => Seq::empty().push(
            ("x-ratelimit-limit"@, nat_text(limit as nat)),
        ).push(("x-ratelimit-remaining"@, nat_text(remaining as nat))).push(
            ("x-ratelimit-reset"@, nat_text(reset_in_secs as nat)),
        ),
        RateLimitDecision::Denied { limit, retry_after_secs } => {
            let base = Seq::empty().push(("retry-after"@, nat_text(retry_after_secs as nat))).push(
                ("x-ratelimit-reset"@, nat_text(retry_after_secs as nat)),
            ).push(("x-ratelimit-limit"@, nat_text(limit as nat))).push(
                ("x-ratelimit-remaining"@, "0"@),
            );
            if pre_auth {
                base.push(("x-ratelimit-scope"@, "pre-auth"@))
            } else {
                base
            }
        },
    }
}

fn put_header(h: Vec<Header>, name: &'static str, value: String) -> (r: Vec<Header>)
    ensures
        header_views(r@) == header_views(h@).push((name@, value@)),
{
    let mut r = h;
    r.push(Header { name, value });
    assert(header_views(r@) =~= header_views(h@).push((name@, value@)));
    r
}

fn no_headers() -> (r: Vec<Header>)
    ensures
        header_views(r@) == Seq::<(Seq<char>, Seq<char>)>::empty(),
{
    let r: Vec<Header> = Vec::new();
    assert(header_views(r@) =~= Seq::<(Seq<char>, Seq<char>)>::empty());
    r
}

/// The headers that tell a caller of its limit.
pub fn rate_limit_headers(decision: RateLimitDecision, pre_auth: bool) -> (r: Vec<Header>)
    ensures
        header_views(r@) == limit_headers(decision, pre_auth),
{
    match decision {
        RateLimitDecision::Allowed { limit, remaining, reset_in_secs } => {
            let h = put_header(no_headers(), "x-ratelimit-limit", nat_to_text(limit as u128));
            let h = put_header(h, "x-ratelimit-remaining", nat_to_text(remaining as u128));
            put_header(h, "x-ratelimit-reset", nat_to_text(reset_in_secs as u128))
        },
        RateLimitDecision::Denied { limit, retry_after_secs } => {
            let h = put_header(no_headers(), "retry-after", nat_to_text(retry_after_secs as u128));
            let h = put_header(h, "x-ratelimit-reset", nat_to_text(retry_after_secs as u128));
            let h = put_header(h, "x-ratelimit-limit", nat_to_text(limit as u128));
            let h = put_header(h, "x-ratelimit-remaining", String::from_str("0"));
            if pre_auth {
                put_header(h, "x-ratelimit-scope", String::from_str("pre-auth"))
            } else {
                h
            }
        },
    }
}

// ---------------------------------------------------------------------------
// Identity and framing
// ---------------------------------------------------------------------------

/// Why a protocol version is refused.
pub open spec fn version_error(config: Config, version: Option<Seq<char>>) -> Option<ErrorView> {
    if !config.require_icp_version {
        None
    } else {
        match version {
            None => Some(ErrorView::InvalidRequest("ICP-Version header required"@)),
            Some(v) => if v == config.icp_version@ {
                None
            } else {
                Some(
                    ErrorView::InvalidRequest(
                        "ICP-Version `"@ + v + "` not supported; expected `"@ + config.icp_version@
                            + "`"@,
                    ),
                )
            },
        }
    }
}

/// Why a caller is refused, in the order in which it is checked.
pub open spec fn caller_error(
    config: Config,
    keys: Map<Seq<char>, ApiKeyInfo>,
    h: SubmitHeaders,
    now: int,
) -> Option<ErrorView> {
    let authorization = opt_text(h.authorization);
    if tenant_error(keys, authorization, now) is Some {
        tenant_error(keys, authorization, now)
    } else if h.agent_id is None {
        Some(ErrorView::AuthenticationFailed("ICP-Agent-Id header required"@))
    } else if !permits(keys[bearer_of(authorization)->0], h.agent_id->0@) {
        Some(agent_refused(h.agent_id->0@))
    } else {
        version_error(config, opt_text(h.version))
    }
}

/// Why a request is refused for a header that it lacks.
pub open spec fn framing_error(config: Config, h: SubmitHeaders) -> Option<ErrorView> {
    if h.request_id is None && config.require_request_id {
        Some(ErrorView::InvalidRequest("ICP-Request-Id header required for this handler"@))
    } else if h.idempotency_key is None && config.require_idempotency_key {
        Some(ErrorView::InvalidRequest("ICP-Idempotency-Key header required for this handler"@))
    } else {
        None
    }
}

/// Whether this is the open submission of the caller.
pub open spec fn opened_for(
    o: OpenSubmission,
    tenant: ApiKeyInfo,
    h: SubmitHeaders,
    own: RateLimitDecision,
    fresh_request_id: String,
) -> bool {
    &&& o.tenant.same_as(tenant)
    &&& h.agent_id matches Some(a) && o.agent.raw@ == a@ && o.agent.kind
        == crate::agent::agent_kind(a@)
    &&& o.mandate_jws == h.mandate
    &&& o.request_id == (match h.request_id {
        Some(id) => id,
        None => fresh_request_id,
    })
    &&& o.trace_id == h.trace_id
    &&& o.idempotency_key == h.idempotency_key
    &&& header_views(o.limit_headers@) == limit_headers(own, false)
}

fn as_ref(o: &Option<String>) -> (r: Option<&str>)
    ensures
        crate::text::opt_view(r) == opt_text(*o),
{
    match o {
        Some(s) => Some(s.as_str()),
        None => None,
    }
}

fn check_version(config: &Config, version: Option<&str>) -> (r: Result<(), ApiError>)
    ensures
        match r {
            Ok(()) => version_error(*config, crate::text::opt_view(version)) is None,
            Err(e) => version_error(*config, crate::text::opt_view(version)) == Some(e@),
        },
{
    if !config.require_icp_version {
        return Ok(());
    }
    match version {
        None => Err(ApiError::InvalidRequest(String::from_str("ICP-Version header required"))),
        Some(v) => if str_eq(v, config.icp_version.as_str()) {
            Ok(())
        } else {
            Err(
                ApiError::InvalidRequest(
                    join5(
                        "ICP-Version `",
                        v,
                        "` not supported; expected `",
                        config.icp_version.as_str(),
                        "`",
                    ),
                ),
            )
        },
    }
}

/// The tenant and the agent of a caller.
pub fn identify_caller(config: &Config, keys: &ApiKeyStore, headers: &SubmitHeaders, now: Timestamp) -> (r:
    Result<(ApiKeyInfo, AgentIdentifier), ApiError>)
    ensures
        match r {
            Ok((tenant, agent)) => {
                &&& caller_error(*config, keys@, *headers, now@) is None
                &&& tenant.same_as(keys@[bearer_of(opt_text(headers.authorization))->0])
                &&& headers.agent_id matches Some(a) && agent.raw@ == a@ && agent.kind
                    == crate::agent::agent_kind(a@)
            },
            Err(e) => caller_error(*config, keys@, *headers, now@) == Some(e@),
        },
{
    let tenant = match resolve_tenant(as_ref(&headers.authorization), keys, now) {
        Ok(t) => t,
        Err(e) => {
            return Err(e);
        },
    };
    let agent = match resolve_agent(as_ref(&headers.agent_id)) {
        Ok(a) => a,
        Err(e) => {
            return Err(e);
        },
    };
    match ensure_agent_allowed(&tenant, &agent) {
        Ok(()) => {},
        Err(e) => {
            return Err(e);
        },
    }
    match check_version(config, as_ref(&headers.version)) {
        Ok(()) => Ok((tenant, agent)),
        Err(e) => Err(e),
    }
}

/// What comes after the limit of the tenant was asked.
pub open spec fn framed(
    config: Config,
    tenant: ApiKeyInfo,
    h: SubmitHeaders,
    own: RateLimitDecision,
    fresh_request_id: String,
    r: Submission,
) -> bool {
    if own is Denied {
        r matches Submission::Limited(x) && header_views(x@) == limit_headers(own, false)
    } else if framing_error(config, h) is Some {
        r matches Submission::Refused(e) && framing_error(config, h) == Some(e@)
    } else {
        r matches Submission::Open(o) && opened_for(o, tenant, h, own, fresh_request_id)
    }
}

/// What comes after the limit of the client was asked.
pub open spec fn past_client_limit(
    before: IcpService,
    after: IcpService,
    keys: Map<Seq<char>, ApiKeyInfo>,
    h: SubmitHeaders,
    now: Timestamp,
    fresh_request_id: String,
    pre: RateLimitDecision,
    r: Submission,
) -> bool {
    let error = caller_error(before.config, keys, h, now@);
    if pre is Denied {
        &&& r matches Submission::Limited(x) && header_views(x@) == limit_headers(pre, true)
        &&& after.rate_limiter == before.rate_limiter
    } else if error is Some {
        &&& r matches Submission::Refused(e) && error == Some(e@)
        &&& after.rate_limiter == before.rate_limiter
    } else {
        let tenant = keys[bearer_of(opt_text(h.authorization))->0];
        exists|own: RateLimitDecision|
            {
                &&& #[trigger] asked(
                    before.rate_limiter,
                    after.rate_limiter,
                    tenant.tenant_id@,
                    tenant.rate_limit_per_minute,
                    own,
                )
                &&& framed(before.config, tenant, h, own, fresh_request_id, r)
            }
    }
}

impl IcpService {
    /// Opens the submission of an intent. The limit of the client is asked
    /// before anything is looked up, so a flood of unknown keys costs little;
    /// the limit of the tenant is asked once the caller is known.
    pub fn open_submission(
        &mut self,
        headers: SubmitHeaders,
        keys: &ApiKeyStore,
        trust_proxy_headers: bool,
        now: Timestamp,
        fresh_request_id: String,
    ) -> (r: Submission)
        ensures
            *final(self) == (IcpService {
                rate_limiter: final(self).rate_limiter,
                pre_auth_limiter: final(self).pre_auth_limiter,
                ..*old(self)
            }),
            exists|pre: RateLimitDecision|
                {
                    &&& #[trigger] asked(
                        old(self).pre_auth_limiter,
                        final(self).pre_auth_limiter,
                        client_bucket(
                            opt_text(headers.forwarded_for),
                            opt_text(headers.real_ip),
                            trust_proxy_headers,
                        ),
                        None,
                        pre,
                    )
                    &&& past_client_limit(
                        *old(self),
                        *final(self),
                        keys@,
                        headers,
                        now,
                        fresh_request_id,
                        pre,
                        r,
                    )
                },
    {
        let client = client_ip_for_rate_limit(
            as_ref(&headers.forwarded_for),
            as_ref(&headers.real_ip),
            trust_proxy_headers,
        );
        let pre = self.pre_auth_limiter.check(client.as_str(), None);
        match pre {
            RateLimitDecision::Denied { .. } => {
                return Submission::Limited(rate_limit_headers(pre, true));
            },
            _ => {},
        }
        let (tenant, agent) = match identify_caller(&self.config, keys, &headers, now) {
            Ok(p) => p,
            Err(e) => {
                return Submission::Refused(e);
            },
        };
        let own = self.rate_limiter.check(tenant.tenant_id.as_str(), tenant.rate_limit_per_minute);
        let told = rate_limit_headers(own, false);
        match own {
            RateLimitDecision::Denied { .. } => {
                return Submission::Limited(told);
            },
            _ => {},
        }
        if headers.request_id.is_none() && self.config.require_request_id {
            return Submission::Refused(
                ApiError::InvalidRequest(
                    String::from_str("ICP-Request-Id header required for this handler"),
                ),
            );
        }
        if headers.idempotency_key.is_none() && self.config.require_idempotency_key {
            return Submission::Refused(
                ApiError::InvalidRequest(
                    String::from_str("ICP-Idempotency-Key header required for this handler"),
                ),
            );
        }
        let request_id = match headers.request_id {
            Some(id) => id,
            None => fresh_request_id,
        };
        Submission::Open(
            OpenSubmission {
                tenant,
                agent,
                mandate_jws: headers.mandate,
                request_id,
                trace_id: headers.trace_id,
                idempotency_key: headers.idempotency_key,
                limit_headers: told,
            },
        )
    }
}

/// Why a request may not run, given what became of the reservation of its key.
pub open spec fn reservation_error(outcome: ReserveOutcome) -> Option<ErrorView> {
    match outcome {
        ReserveOutcome::Conflict => Some(
            ErrorView::IdempotencyConflict(
                "idempotency key reused with a different request body"@,
            ),
        ),
        ReserveOutcome::InProgress => Some(
            ErrorView::Conflict("a request with this idempotency key is in progress"@),
        ),
        _ => None,
    }
}

/// Why a request may not run, given what became of the reservation of its key.
pub fn reservation_refusal(outcome: &ReserveOutcome) -> (r: Option<ApiError>)
    ensures
        match r {
            Some(e) => reservation_error(*outcome) == Some(e@),
            None => reservation_error(*outcome) is None,
        },
{
    match outcome {
        ReserveOutcome::Conflict => Some(
            ApiError::IdempotencyConflict(
                String::from_str("idempotency key reused with a different request body"),
            ),
        ),
        ReserveOutcome::InProgress => Some(
            ApiError::Conflict(
                String::from_str("a request with this idempotency key is in progress"),
            ),
        ),
        _ => None,
    }
}

// ---------------------------------------------------------------------------
// The reply
// ---------------------------------------------------------------------------

/// The headers of the reply to an executed intent: its receipt when it has one,
/// and a mark on replays.
pub open spec fn reply_headers(
    receipt: ReceiptStub,
    replayed: bool,
    idempotency_key: Option<Seq<char>>,
) -> Seq<(Seq<char>, Seq<char>)> {
    let signed = if receipt.jws@.len() > 0 {
        Seq::empty().push(("icp-receipt"@, receipt.jws@)).push(
            ("icp-receipt-kid"@, receipt.kid@),
        )
    } else {
        Seq::empty()
    };
    if !replayed {
        signed
    } else {
        let marked = signed.push(("idempotent-replayed"@, "true"@));
        match idempotency_key {
            Some(k) => marked.push(("idempotent-key"@, k)),
            None => marked,
        }
    }
}

/// The headers of the reply to an executed intent.
pub fn response_headers(receipt: &ReceiptStub, replayed: bool, idempotency_key: &Option<String>) -> (r:
    Vec<Header>)
    ensures
        header_views(r@) == reply_headers(*receipt, replayed, opt_text(*idempotency_key)),
{
    let mut h = no_headers();
    if !receipt.jws.as_str().is_empty() {
        h = put_header(h, "icp-receipt", receipt.jws.clone());
        h = put_header(h, "icp-receipt-kid", receipt.kid.clone());
    }
    if replayed {
        h = put_header(h, "idempotent-replayed", String::from_str("true"));
        match idempotency_key {
            Some(k) => {
                h = put_header(h, "idempotent-key", k.clone());
            },
            None => {},
        }
    }
    h
}

// ---------------------------------------------------------------------------
// Laws
// ---------------------------------------------------------------------------

/// An open submission belongs to a live key, to an agent that may use it, and to
/// a version that the deployment speaks.
pub proof fn law_open_submissions_are_authenticated(
    config: Config,
    keys: Map<Seq<char>, ApiKeyInfo>,
    h: SubmitHeaders,
    now: int,
)
    requires
        caller_error(config, keys, h, now) is None,
    ensures
        tenant_error(keys, opt_text(h.authorization), now) is None,
        h.agent_id matches Some(a) && permits(keys[bearer_of(opt_text(h.authorization))->0], a@),
        config.require_icp_version ==> opt_text(h.version) == Some(config.icp_version@),
{
}

/// An intent without a receipt gets no receipt headers.
pub proof fn law_no_receipt_no_header(
    receipt: ReceiptStub,
    replayed: bool,
    key: Option<Seq<char>>,
    i: int,
)
    requires
        receipt.jws@.len() == 0,
        0 <= i < reply_headers(receipt, replayed, key).len(),
    ensures
        reply_headers(receipt, replayed, key)[i].0 == "idempotent-replayed"@ || reply_headers(
            receipt,
            replayed,
            key,
        )[i].0 == "idempotent-key"@,
{
}

/// A caller is let in exactly with a live key, the name of an agent that the key permits, and
/// the version that the deployment speaks, where it insists on one.
pub proof fn law_callers_need_key_agent_and_version(
    config: Config,
    keys: Map<Seq<char>, ApiKeyInfo>,
    h: SubmitHeaders,
    now: int,
)
    ensures
        caller_error(config, keys, h, now) is None <==> {
            &&& tenant_error(keys, opt_text(h.authorization), now) is None
            &&& h.agent_id matches Some(a) && permits(
                keys[bearer_of(opt_text(h.authorization))->0],
                a@,
            )
            &&& config.require_icp_version ==> (h.version matches Some(v) && v@
                == config.icp_version@)
        },
        caller_error(config, keys, h, now) matches Some(e) ==> e is AuthenticationFailed || e
            is InvalidRequest,
        tenant_error(keys, opt_text(h.authorization), now) is Some ==> caller_error(
            config,
            keys,
            h,
            now,
        ) == tenant_error(keys, opt_text(h.authorization), now),
{
}

/// What a deployment insists on must be given: the id of the request, and the key for
/// retries.
pub proof fn law_required_headers_must_be_given(config: Config, h: SubmitHeaders)
    ensures
        framing_error(config, h) is None <==> (config.require_request_id ==> h.request_id is Some)
            && (config.require_idempotency_key ==> h.idempotency_key is Some),
        framing_error(config, h) matches Some(e) ==> e is InvalidRequest,
{
}

/// A submission of a caller who was let in is opened exactly when the limit of its tenant
/// allows it and what the deployment insists on is given. It then carries what the caller
/// sent, under the id of the request that it names or a fresh one.
pub proof fn law_submissions_carry_what_was_sent(
    config: Config,
    tenant: ApiKeyInfo,
    h: SubmitHeaders,
    own: RateLimitDecision,
    fresh_request_id: String,
    r: Submission,
)
    requires
        framed(config, tenant, h, own, fresh_request_id, r),
    ensures
        r is Open <==> own is Allowed && framing_error(config, h) is None,
        r is Limited <==> own is Denied,
        r matches Submission::Open(o) ==> {
            &&& o.tenant.tenant_id == tenant.tenant_id && o.tenant.key == tenant.key
            &&& h.agent_id matches Some(a) && o.agent.raw@ == a@
            &&& o.mandate_jws == h.mandate && o.trace_id == h.trace_id && o.idempotency_key
                == h.idempotency_key
            &&& h.request_id matches Some(id) ==> o.request_id == id
            &&& h.request_id is None ==> o.request_id == fresh_request_id
        },
{
}

/// A client that is over its limit is told so before anything else is looked at, and a caller
/// who is refused costs the tenant nothing.
pub proof fn law_refusals_do_not_count_against_the_tenant(
    before: IcpService,
    after: IcpService,
    keys: Map<Seq<char>, ApiKeyInfo>,
    h: SubmitHeaders,
    now: Timestamp,
    fresh_request_id: String,
    pre: RateLimitDecision,
    r: Submission,
)
    requires
        past_client_limit(before, after, keys, h, now, fresh_request_id, pre, r),
    ensures
        pre is Denied ==> r is Limited && after.rate_limiter == before.rate_limiter,
        pre is Allowed && caller_error(before.config, keys, h, now@) is Some ==> r is Refused
            && after.rate_limiter == before.rate_limiter,
        r is Open ==> pre is Allowed && caller_error(before.config, keys, h, now@) is None,
{
}

/// Whether the headers hold this value under this name.
pub open spec fn tells(
    headers: Seq<(Seq<char>, Seq<char>)>,
    name: Seq<char>,
    value: Seq<char>,
) -> bool {
    headers.contains((name, value))
}

/// The headers of an answer tell the limit, what is left of it, and when it starts anew; a
/// request over the limit is told how long to wait.
pub proof fn law_limits_are_told(d: RateLimitDecision, pre_auth: bool)
    ensures
        match d {
            RateLimitDecision::Allowed { limit, remaining, reset_in_secs } => {
                let h = limit_headers(d, pre_auth);
                &&& h.len() == 3
                &&& tells(h, "x-ratelimit-limit"@, nat_text(limit as nat))
                &&& tells(h, "x-ratelimit-remaining"@, nat_text(remaining as nat))
                &&& tells(h, "x-ratelimit-reset"@, nat_text(reset_in_secs as nat))
            },
            RateLimitDecision::Denied { limit, retry_after_secs } => {
                let h = limit_headers(d, pre_auth);
                &&& tells(h, "retry-after"@, nat_text(retry_after_secs as nat))
                &&& tells(h, "x-ratelimit-reset"@, nat_text(retry_after_secs as nat))
                &&& tells(h, "x-ratelimit-limit"@, nat_text(limit as nat))
                &&& tells(h, "x-ratelimit-remaining"@, "0"@)
                &&& pre_auth ==> tells(h, "x-ratelimit-scope"@, "pre-auth"@)
                &&& h.len() == (if pre_auth {
                    5int
                } else {
                    4
                })
            },
        },
{
    let h = limit_headers(d, pre_auth);
    match d {
        RateLimitDecision::Allowed { limit, remaining, reset_in_secs } => {
            assert(h[0] == ("x-ratelimit-limit"@, nat_text(limit as nat)));
            assert(h[1] == ("x-ratelimit-remaining"@, nat_text(remaining as nat)));
            assert(h[2] == ("x-ratelimit-reset"@, nat_text(reset_in_secs as nat)));
        },
        RateLimitDecision::Denied { limit, retry_after_secs } => {
            assert(h[0] == ("retry-after"@, nat_text(retry_after_secs as nat)));
            assert(h[1] == ("x-ratelimit-reset"@, nat_text(retry_after_secs as nat)));
            assert(h[2] == ("x-ratelimit-limit"@, nat_text(limit as nat)));
            assert(h[3] == ("x-ratelimit-remaining"@, "0"@));
            if pre_auth {
                assert(h[4] == ("x-ratelimit-scope"@, "pre-auth"@));
            }
        },
    }
}

/// The headers of an answer carry its receipt, if it has one, and say when it was given
/// before, and for which key.
pub proof fn law_receipts_and_replays_are_told(
    receipt: ReceiptStub,
    replayed: bool,
    key: Option<Seq<char>>,
)
    ensures
        ({
            let h = reply_headers(receipt, replayed, key);
            &&& receipt.jws@.len() > 0 ==> tells(h, "icp-receipt"@, receipt.jws@) && tells(
                h,
                "icp-receipt-kid"@,
                receipt.kid@,
            )
            &&& replayed ==> tells(h, "idempotent-replayed"@, "true"@)
            &&& replayed && key is Some ==> tells(h, "idempotent-key"@, key->0)
            &&& h.len() == (if receipt.jws@.len() > 0 {
                2int
            } else {
                0
            }) + (if replayed {
                if key is Some {
                    2int
                } else {
                    1
                }
            } else {
                0
            })
        }),
{
    let h = reply_headers(receipt, replayed, key);
    let n: int = if receipt.jws@.len() > 0 {
        2
    } else {
        0
    };
    if receipt.jws@.len() > 0 {
        assert(h[0] == ("icp-receipt"@, receipt.jws@));
        assert(h[1] == ("icp-receipt-kid"@, receipt.kid@));
    }
    if replayed {
        assert(h[n] == ("idempotent-replayed"@, "true"@));
        if key is Some {
            assert(h[n + 1] == ("idempotent-key"@, key->0));
        }
    }
}

/// A retry is refused exactly when its key is in use: by another request, or by one that is
/// still in progress.
pub proof fn law_keys_in_use_are_refused(outcome: ReserveOutcome)
    ensures
        reservation_error(outcome) is None <==> outcome is Won || outcome is Replay,
        outcome is Conflict ==> (reservation_error(outcome) matches Some(e) && e
            is IdempotencyConflict),
        outcome is InProgress ==> (reservation_error(outcome) matches Some(e) && e is Conflict),
{
}

} // verus!
