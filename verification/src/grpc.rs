//! What the gRPC surface decides: who is calling, what an intent carries, and how
//! errors are reported.

use vstd::prelude::*;

use crate::agent::{agent_kind, AgentIdentifier, ApiKeyInfo, ApiKeyStore};
use crate::config::Config;
use crate::errors::{ApiError, ErrorView};
use crate::handlers::permits;
use crate::models::IntentEnvelope;
use crate::service::helpers::owns_transaction;
use crate::service::{IcpService, IntentInput};
use crate::signing::ReceiptClaims;
use crate::text::{
    after_prefix, has_prefix, join2, join3, join5, opt_text, opt_view, str_eq, strip_prefix,
};
use crate::time::Timestamp;

verus! {

/// The status codes that are used.
#[derive(Debug, Clone, Copy, PartialEq, Eq, Structural)]
pub enum GrpcCode {
    InvalidArgument,
    NotFound,
    AlreadyExists,
    PermissionDenied,
    ResourceExhausted,
    FailedPrecondition,
    Internal,
    Unavailable,
    Unauthenticated,
}

impl GrpcCode {
    /// The number on the wire.
    pub open spec fn number(self) -> int {
        match self {
            GrpcCode::InvalidArgument => 3,
            GrpcCode::NotFound => 5,
            GrpcCode::AlreadyExists => 6,
            GrpcCode::PermissionDenied => 7,
            GrpcCode::ResourceExhausted => 8,
            GrpcCode::FailedPrecondition => 9,
            GrpcCode::Internal => 13,
            GrpcCode::Unavailable => 14,
            GrpcCode::Unauthenticated => 16,
        }
    }

    /// The number on the wire.
    pub fn as_number(self) -> (r: i32)
        ensures
            r == self.number(),
    {
        match self {
            GrpcCode::InvalidArgument => 3,
            GrpcCode::NotFound => 5,
            GrpcCode::AlreadyExists => 6,
            GrpcCode::PermissionDenied => 7,
            GrpcCode::ResourceExhausted => 8,
            GrpcCode::FailedPrecondition => 9,
            GrpcCode::Internal => 13,
            GrpcCode::Unavailable => 14,
            GrpcCode::Unauthenticated => 16,
        }
    }
}

/// A failed call.
#[derive(Debug)]
pub struct GrpcStatus {
    pub code: GrpcCode,
    pub message: String,
}

impl View for GrpcStatus {
    type V = (GrpcCode, Seq<char>);

    open spec fn view(&self) -> (GrpcCode, Seq<char>) {
        (self.code, self.message@)
    }
}

fn status(code: GrpcCode, message: &str) -> (r: GrpcStatus)
    ensures
        r@ == (code, message@),
{
    GrpcStatus { code, message: String::from_str(message) }
}

/// How an error is reported.
pub open spec fn reported(e: ErrorView) -> (GrpcCode, Seq<char>) {
    match e {
        ErrorView::InvalidRequest(m) => (GrpcCode::InvalidArgument, m),
        ErrorView::AuthenticationFailed(m) => (GrpcCode::Unauthenticated, m),
        ErrorView::MandateInvalid(m) => (GrpcCode::Unauthenticated, m),
        ErrorView::MandateOutOfScope(m) => (GrpcCode::PermissionDenied, m),
        ErrorView::MandateBudgetExceeded(m) => (GrpcCode::ResourceExhausted, m),
        ErrorView::IntentNotSupported(m) => (GrpcCode::NotFound, m),
        ErrorView::ResourceNotFound(m) => (GrpcCode::NotFound, m),
        ErrorView::Conflict(m) => (GrpcCode::AlreadyExists, m),
        ErrorView::IdempotencyConflict(m) => (GrpcCode::AlreadyExists, m),
        ErrorView::PreconditionFailed(m) => (GrpcCode::FailedPrecondition, m),
        ErrorView::RateLimited => (GrpcCode::ResourceExhausted, "rate limited"@),
        ErrorView::EngineUnavailable(m) => (GrpcCode::Unavailable, m),
        ErrorView::ProcessingError(m) => (GrpcCode::Internal, m),
    }
}

/// How an error is reported.
pub fn api_error_to_status(err: ApiError) -> (r: GrpcStatus)
    ensures
        r@ == reported(err@),
{
    match err {
        ApiError::InvalidRequest(m) => GrpcStatus { code: GrpcCode::InvalidArgument, message: m },
        ApiError::AuthenticationFailed(m) => GrpcStatus {
            code: GrpcCode::Unauthenticated,
            message: m,
        },
        ApiError::MandateInvalid(m) => GrpcStatus { code: GrpcCode::Unauthenticated, message: m },
        ApiError::MandateOutOfScope(m) => GrpcStatus {
            code: GrpcCode::PermissionDenied,
            message: m,
        },
        ApiError::MandateBudgetExceeded(m) => GrpcStatus {
            code: GrpcCode::ResourceExhausted,
            message: m,
        },
        ApiError::IntentNotSupported(m) => GrpcStatus { code: GrpcCode::NotFound, message: m },
        ApiError::ResourceNotFound(m) => GrpcStatus { code: GrpcCode::NotFound, message: m },
        ApiError::Conflict(m) => GrpcStatus { code: GrpcCode::AlreadyExists, message: m },
        ApiError::IdempotencyConflict(m) => GrpcStatus {
            code: GrpcCode::AlreadyExists,
            message: m,
        },
        ApiError::PreconditionFailed(m) => GrpcStatus {
            code: GrpcCode::FailedPrecondition,
            message: m,
        },
        ApiError::RateLimited => status(GrpcCode::ResourceExhausted, "rate limited"),
        ApiError::EngineUnavailable(m) => GrpcStatus { code: GrpcCode::Unavailable, message: m },
        ApiError::ProcessingError(m) => GrpcStatus { code: GrpcCode::Internal, message: m },
    }
}

// ---------------------------------------------------------------------------
// Callers
// ---------------------------------------------------------------------------

/// The key of a caller: its `authorization` metadata, else its `x-api-key`, with
/// or without a `Bearer` scheme.
pub open spec fn key_of(authorization: Option<Seq<char>>, api_key: Option<Seq<char>>) -> Option<
    Seq<char>,
> {
    let raw = if authorization is Some {
        authorization
    } else {
        api_key
    };
    match raw {
        Some(v) => match after_prefix(v, "Bearer "@) {
            Some(token) => Some(token),
            None => Some(v),
        },
        None => None,
    }
}

/// The key of a caller.
pub fn extract_bearer_metadata(authorization: Option<&str>, api_key: Option<&str>) -> (r: Option<
    String,
>)
    ensures
        opt_text(r) == key_of(opt_view(authorization), opt_view(api_key)),
{
    let raw = match authorization {
        Some(v) => Some(v),
        None => api_key,
    };
    match raw {
        Some(v) => match strip_prefix(v, "Bearer ") {
            Some(token) => Some(String::from_str(token)),
            None => Some(String::from_str(v)),
        },
        None => None,
    }
}

/// Why a caller is refused.
pub open spec fn caller_refusal(
    keys: Map<Seq<char>, ApiKeyInfo>,
    key: Option<Seq<char>>,
    now: int,
) -> Option<(GrpcCode, Seq<char>)> {
    match key {
        None => Some((GrpcCode::Unauthenticated, "missing bearer token"@)),
        Some(k) => if !keys.contains_key(k) {
            Some((GrpcCode::Unauthenticated, "unknown API key"@))
        } else if keys[k].expires_at matches Some(t) && t@ <= now {
            Some((GrpcCode::Unauthenticated, "API key expired"@))
        } else {
            None
        },
    }
}

/// The tenant of a caller.
pub fn authenticate_bearer(
    authorization: Option<&str>,
    api_key: Option<&str>,
    keys: &ApiKeyStore,
    now: Timestamp,
) -> (r: Result<ApiKeyInfo, GrpcStatus>)
    ensures
        ({
            let key = key_of(opt_view(authorization), opt_view(api_key));
            match r {
                Ok(k) => caller_refusal(keys@, key, now@) is None && k.same_as(keys@[key->0]),
                Err(e) => caller_refusal(keys@, key, now@) == Some(e@),
            }
        }),
{
    match extract_bearer_metadata(authorization, api_key) {
        None => Err(status(GrpcCode::Unauthenticated, "missing bearer token")),
        Some(key) => match keys.lookup(key.as_str()) {
            None => Err(status(GrpcCode::Unauthenticated, "unknown API key")),
            Some(k) => if k.is_expired_at(now) {
                Err(status(GrpcCode::Unauthenticated, "API key expired"))
            } else {
                Ok(k)
            },
        },
    }
}

// ---------------------------------------------------------------------------
// Intents
// ---------------------------------------------------------------------------

/// What surrounds an intent. An empty text stands for nothing.
#[derive(Debug)]
pub struct CallEnvelope {
    pub icp_version: String,
    pub request_id: String,
    pub agent_id: String,
    pub mandate_jws: String,
    pub trace_id: String,
}

/// Why an intent is refused before it is executed.
pub open spec fn intent_refusal(
    config: Config,
    tenant: ApiKeyInfo,
    envelope: Option<CallEnvelope>,
    parsed: Result<IntentEnvelope, String>,
) -> Option<(GrpcCode, Seq<char>)> {
    match envelope {
        None => Some((GrpcCode::InvalidArgument, "envelope required"@)),
        Some(e) => if config.require_icp_version && e.icp_version@ != config.icp_version@ {
            Some(
                (
                    GrpcCode::InvalidArgument,
                    "ICP version `"@ + e.icp_version@ + "` not supported; expected `"@
                        + config.icp_version@ + "`"@,
                ),
            )
        } else if config.require_request_id && e.request_id@.len() == 0 {
            Some((GrpcCode::InvalidArgument, "request_id required"@))
        } else if parsed is Err {
            Some((GrpcCode::InvalidArgument, "payload_json: "@ + parsed->Err_0@))
        } else if !permits(tenant, e.agent_id@) {
            Some(
                (
                    GrpcCode::Unauthenticated,
                    "agent `"@ + e.agent_id@ + "` is not allowed for this API key"@,
                ),
            )
        } else {
            None
        },
    }
}

/// A text, when it is not empty.
pub open spec fn some_text(s: String) -> Option<String> {
    if s@.len() == 0 {
        None
    } else {
        Some(s)
    }
}

fn nonempty(s: String) -> (r: Option<String>)
    ensures
        r == some_text(s),
{
    if s.as_str().is_empty() {
        None
    } else {
        Some(s)
    }
}

/// Whether this is the intent of a call.
pub open spec fn called(
    i: IntentInput,
    tenant: ApiKeyInfo,
    e: CallEnvelope,
    parsed: IntentEnvelope,
    fresh_request_id: String,
) -> bool {
    &&& i.envelope == parsed
    &&& i.agent.raw@ == e.agent_id@
    &&& i.agent.kind == agent_kind(e.agent_id@)
    &&& i.tenant == tenant
    &&& i.mandate_jws == some_text(e.mandate_jws)
    &&& i.request_id == (if e.request_id@.len() == 0 {
        fresh_request_id
    } else {
        e.request_id
    })
    &&& i.trace_id == some_text(e.trace_id)
    &&& !i.skip_mandate_check
}

/// The intent of a call. `parsed` is what the JSON reader made of its payload.
pub fn call_intent(
    config: &Config,
    tenant: ApiKeyInfo,
    envelope: Option<CallEnvelope>,
    parsed: Result<IntentEnvelope, String>,
    fresh_request_id: String,
) -> (r: Result<IntentInput, GrpcStatus>)
    ensures
        match r {
            Ok(i) => intent_refusal(*config, tenant, envelope, parsed) is None && called(
                i,
                tenant,
                envelope->0,
                parsed->Ok_0,
                fresh_request_id,
            ),
            Err(e) => intent_refusal(*config, tenant, envelope, parsed) == Some(e@),
        },
{
    let e = match envelope {
        Some(e) => e,
        None => {
            return Err(status(GrpcCode::InvalidArgument, "envelope required"));
        },
    };
    if config.require_icp_version && !str_eq(e.icp_version.as_str(), config.icp_version.as_str()) {
        return Err(
            GrpcStatus {
                code: GrpcCode::InvalidArgument,
                message: join5(
                    "ICP version `",
                    e.icp_version.as_str(),
                    "` not supported; expected `",
                    config.icp_version.as_str(),
                    "`",
                ),
            },
        );
    }
    if config.require_request_id && e.request_id.as_str().is_empty() {
        return Err(status(GrpcCode::InvalidArgument, "request_id required"));
    }
    let parsed = match parsed {
        Ok(p) => p,
        Err(m) => {
            return Err(
                GrpcStatus {
                    code: GrpcCode::InvalidArgument,
                    message: join2("payload_json: ", m.as_str()),
                },
            );
        },
    };
    let agent = AgentIdentifier::parse(e.agent_id.as_str());
    if !tenant.permits_agent(agent.raw.as_str()) {
        return Err(
            GrpcStatus {
                code: GrpcCode::Unauthenticated,
                message: join3(
                    "agent `",
                    agent.raw.as_str(),
                    "` is not allowed for this API key",
                ),
            },
        );
    }
    let request_id = if e.request_id.as_str().is_empty() {
        fresh_request_id
    } else {
        e.request_id
    };
    Ok(
        IntentInput::for_icp(
            parsed,
            agent,
            tenant,
            nonempty(e.mandate_jws),
            request_id,
            nonempty(e.trace_id),
        ),
    )
}

// ---------------------------------------------------------------------------
// Receipts
// ---------------------------------------------------------------------------

/// What is said of a receipt that was to be verified.
#[derive(Debug)]
pub struct ReceiptVerdict {
    pub valid: bool,
    pub kid: String,
    /// Why the receipt is not valid; empty when it is.
    pub reason: String,
    /// The claims, when the receipt is valid.
    pub claims: Option<ReceiptClaims>,
}

impl IcpService {
    /// What a tenant is told of a receipt, given the result of its verification.
    /// A receipt over the transaction of another tenant is not valid.
    pub fn receipt_verdict(&self, tenant_id: &str, verified: Result<ReceiptClaims, String>) -> (v:
        ReceiptVerdict)
        ensures
            v.kid == self.signer.kid,
            match verified {
                Ok(c) => if owns_transaction(
                    self.transactions@,
                    c.icp.transaction_id@,
                    tenant_id@,
                ) {
                    v.valid && v.reason@ == Seq::<char>::empty() && v.claims == Some(c)
                } else {
                    !v.valid && v.reason@ == "receipt does not belong to caller tenant"@
                        && v.claims is None
                },
                Err(m) => !v.valid && v.reason == m && v.claims is None,
            },
    {
        let kid = self.signer.kid.clone();
        match verified {
            Ok(c) => {
                let own = match self.transactions.get(c.icp.transaction_id.as_str()) {
                    Some(t) => str_eq(t.tenant_id.as_str(), tenant_id),
                    None => false,
                };
                if own {
                    ReceiptVerdict { valid: true, kid, reason: String::new(), claims: Some(c) }
                } else {
                    ReceiptVerdict {
                        valid: false,
                        kid,
                        reason: String::from_str("receipt does not belong to caller tenant"),
                        claims: None,
                    }
                }
            },
            Err(m) => ReceiptVerdict { valid: false, kid, reason: m, claims: None },
        }
    }
}

// ---------------------------------------------------------------------------
// Laws
// ---------------------------------------------------------------------------

/// Errors of the same HTTP class are reported alike: what is refused for its
/// caller is never reported as a fault of the server.
pub proof fn law_caller_faults_are_not_server_faults(e: ErrorView)
    ensures
        e.status() < 500 <==> !(reported(e).0 is Internal || reported(e).0 is Unavailable),
        e is RateLimited || reported(e).1 == e.message(),
{
}

/// Each error has one code on this surface, with its message.
pub proof fn law_errors_have_their_code(e: ErrorView)
    ensures
        e is InvalidRequest <==> reported(e).0 is InvalidArgument,
        e is AuthenticationFailed || e is MandateInvalid <==> reported(e).0 is Unauthenticated,
        e is MandateOutOfScope <==> reported(e).0 is PermissionDenied,
        e is MandateBudgetExceeded || e is RateLimited <==> reported(e).0 is ResourceExhausted,
        e is IntentNotSupported || e is ResourceNotFound <==> reported(e).0 is NotFound,
        e is Conflict || e is IdempotencyConflict <==> reported(e).0 is AlreadyExists,
        e is PreconditionFailed <==> reported(e).0 is FailedPrecondition,
        e is EngineUnavailable <==> reported(e).0 is Unavailable,
        e is ProcessingError <==> reported(e).0 is Internal,
        !(e is RateLimited) ==> reported(e).1 == e.message(),
{
}

/// The key of a call is its bearer token, or the text as it is where it says no `Bearer`; it is
/// looked for in one header first and only else in the other.
pub proof fn law_keys_are_found_in_the_metadata(token: Seq<char>, other: Option<Seq<char>>)
    ensures
        key_of(Some("Bearer "@ + token), other) == Some(token),
        key_of(None, Some("Bearer "@ + token)) == Some(token),
        !has_prefix(token, "Bearer "@) ==> key_of(Some(token), other) == Some(token),
        key_of(None, None) is None,
{
    let text = "Bearer "@ + token;
    assert(text.take("Bearer "@.len() as int) =~= "Bearer "@);
    assert(text.skip("Bearer "@.len() as int) =~= token);
}

/// A call is let in exactly with a known key that has not expired.
pub proof fn law_calls_need_a_live_key(
    keys: Map<Seq<char>, ApiKeyInfo>,
    key: Option<Seq<char>>,
    now: int,
)
    ensures
        caller_refusal(keys, key, now) is None <==> (key matches Some(k) && keys.contains_key(k)
            && (keys[k].expires_at matches Some(t) ==> now < t@)),
        caller_refusal(keys, key, now) matches Some(s) ==> s.0 is Unauthenticated,
{
}

/// A call becomes an intent exactly when it has an envelope of the right version, with the id
/// of the request where that is required, a payload that can be read, and an agent that the
/// key permits.
pub proof fn law_calls_need_a_sound_envelope(
    config: Config,
    tenant: ApiKeyInfo,
    envelope: Option<CallEnvelope>,
    parsed: Result<IntentEnvelope, String>,
)
    ensures
        intent_refusal(config, tenant, envelope, parsed) is None <==> (envelope matches Some(e) && (
        config.require_icp_version ==> e.icp_version@ == config.icp_version@) && (
        config.require_request_id ==> e.request_id@.len() > 0) && parsed is Ok && permits(
            tenant,
            e.agent_id@,
        )),
{
}

/// What a call raises is the intent in its payload, by its agent and under its mandate if it
/// has one; the request keeps its id, or gets a fresh one.
pub proof fn law_calls_are_raised_as_given(
    i: IntentInput,
    tenant: ApiKeyInfo,
    e: CallEnvelope,
    parsed: IntentEnvelope,
    fresh: String,
)
    requires
        called(i, tenant, e, parsed, fresh),
    ensures
        i.envelope == parsed && i.agent.raw@ == e.agent_id@ && i.tenant == tenant,
        e.mandate_jws@.len() > 0 ==> i.mandate_jws == Some(e.mandate_jws),
        e.mandate_jws@.len() == 0 ==> i.mandate_jws is None,
        e.request_id@.len() > 0 ==> i.request_id == e.request_id,
        e.request_id@.len() == 0 ==> i.request_id == fresh,
        e.trace_id@.len() > 0 ==> i.trace_id == Some(e.trace_id),
        !i.skip_mandate_check,
{
}

/// The codes have the numbers that the protocol gives them.
pub proof fn law_codes_have_their_number(c: GrpcCode)
    ensures
        c is InvalidArgument <==> c.number() == 3,
        c is NotFound <==> c.number() == 5,
        c is AlreadyExists <==> c.number() == 6,
        c is PermissionDenied <==> c.number() == 7,
        c is ResourceExhausted <==> c.number() == 8,
        c is FailedPrecondition <==> c.number() == 9,
        c is Internal <==> c.number() == 13,
        c is Unavailable <==> c.number() == 14,
        c is Unauthenticated <==> c.number() == 16,
{
}

} // verus!
