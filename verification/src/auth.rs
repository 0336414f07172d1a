//! Authentication of plain requests: a bearer key for the tenant, and a header
//! for the agent.

use vstd::prelude::*;

use crate::agent::{agent_kind, AgentIdentifier, ApiKeyInfo, ApiKeyStore};
use crate::errors::{ApiError, ApiErrorBody, ApiErrorPayload, ErrorView};
use crate::text::{after_prefix, has_prefix, opt_view, strip_prefix};

verus! {

/// What the authentication of requests needs.
pub struct AuthState {
    pub keys: ApiKeyStore,
    pub require_mandate: bool,
}

/// Why an `Authorization` header holds no bearer token.
pub open spec fn bearer_error(authorization: Option<Seq<char>>) -> Option<ErrorView> {
    match authorization {
        None => Some(ErrorView::AuthenticationFailed("Authorization header missing"@)),
        Some(v) => if after_prefix(v, "Bearer "@) is None {
            Some(ErrorView::AuthenticationFailed("Authorization must be a Bearer token"@))
        } else {
            None
        },
    }
}

/// The token of an `Authorization` header.
pub fn extract_bearer(authorization: Option<&str>) -> (r: Result<String, ApiError>)
    ensures
        match r {
            Ok(token) => bearer_error(opt_view(authorization)) is None && after_prefix(
                opt_view(authorization)->0,
                "Bearer "@,
            ) == Some(token@),
            Err(e) => bearer_error(opt_view(authorization)) == Some(e@),
        },
{
    match authorization {
        None => Err(
            ApiError::AuthenticationFailed(String::from_str("Authorization header missing")),
        ),
        Some(v) => match strip_prefix(v, "Bearer ") {
            Some(token) => Ok(String::from_str(token)),
            None => Err(
                ApiError::AuthenticationFailed(
                    String::from_str("Authorization must be a Bearer token"),
                ),
            ),
        },
    }
}

/// Why a request is not authenticated.
pub open spec fn authentication_error(
    keys: Map<Seq<char>, ApiKeyInfo>,
    authorization: Option<Seq<char>>,
    agent_id: Option<Seq<char>>,
) -> Option<ErrorView> {
    if bearer_error(authorization) is Some {
        bearer_error(authorization)
    } else if !keys.contains_key(after_prefix(authorization->0, "Bearer "@)->0) {
        Some(ErrorView::AuthenticationFailed("unknown API key"@))
    } else if agent_id is None {
        Some(ErrorView::AuthenticationFailed("ICP-Agent-Id header required"@))
    } else {
        None
    }
}

impl AuthState {
    /// The tenant and the agent of a request.
    pub fn authenticate(&self, authorization: Option<&str>, agent_id: Option<&str>) -> (r: Result<
        (ApiKeyInfo, AgentIdentifier),
        ApiError,
    >)
        ensures
            ({
                let error = authentication_error(
                    self.keys@,
                    opt_view(authorization),
                    opt_view(agent_id),
                );
                match r {
                    Ok((tenant, agent)) => {
                        &&& error is None
                        &&& tenant.same_as(
                            self.keys@[after_prefix(opt_view(authorization)->0, "Bearer "@)->0],
                        )
                        &&& agent_id matches Some(a) && agent.raw@ == a@ && agent.kind
                            == agent_kind(a@)
                    },
                    Err(e) => error == Some(e@),
                }
            }),
    {
        let token = match extract_bearer(authorization) {
            Ok(t) => t,
            Err(e) => {
                return Err(e);
            },
        };
        let tenant = match self.keys.lookup(token.as_str()) {
            Some(k) => k,
            None => {
                return Err(ApiError::AuthenticationFailed(String::from_str("unknown API key")));
            },
        };
        match agent_id {
            Some(a) => Ok((tenant, AgentIdentifier::parse(a))),
            None => Err(
                ApiError::AuthenticationFailed(String::from_str("ICP-Agent-Id header required")),
            ),
        }
    }
}

/// The reply to a request that is not authenticated.
pub fn auth_failure(message: &str) -> (r: (u16, ApiErrorBody))
    ensures
        r.0 == 401,
        r.1.error.type_@ == "authentication_failed"@,
        r.1.error.code@ == "authentication_failed"@,
        r.1.error.message@ == message@,
        r.1.error.param is None,
        r.1.error.intent_id is None,
        !r.1.error.retriable,
        r.1.error.docs_url is None,
{
    (
        401,
        ApiErrorBody {
            error: ApiErrorPayload {
                type_: String::from_str("authentication_failed"),
                code: String::from_str("authentication_failed"),
                message: String::from_str(message),
                param: None,
                intent_id: None,
                retriable: false,
                docs_url: None,
            },
        },
    )
}

/// A request is authenticated exactly when it bears a known key and names its agent.
pub proof fn law_known_keys_and_named_agents_authenticate(
    keys: Map<Seq<char>, ApiKeyInfo>,
    authorization: Option<Seq<char>>,
    agent_id: Option<Seq<char>>,
    token: Seq<char>,
)
    ensures
        authorization == Some("Bearer "@ + token) ==> (authentication_error(
            keys,
            authorization,
            agent_id,
        ) is None <==> keys.contains_key(token) && agent_id is Some),
        authorization == Some("Bearer "@ + token) ==> bearer_error(authorization) is None
            && after_prefix(authorization->0, "Bearer "@) == Some(token),
        authorization is None || !has_prefix(authorization->0, "Bearer "@)
            ==> authentication_error(keys, authorization, agent_id) is Some && bearer_error(
            authorization,
        ) is Some,
        authentication_error(keys, authorization, agent_id) matches Some(e) ==> e
            is AuthenticationFailed,
{
    let text = "Bearer "@ + token;
    assert(text.take("Bearer "@.len() as int) =~= "Bearer "@);
    assert(text.skip("Bearer "@.len() as int) =~= token);
}

} // verus!
