//! What the request handlers share: who is calling, and which headers a reply
//! carries.

use vstd::prelude::*;

use crate::agent::{AgentIdentifier, ApiKeyInfo, ApiKeyStore};
use crate::errors::{ApiError, ErrorView};
use crate::json::{Json, JsonView};
use crate::text::{
    after_prefix, has_prefix, join3, law_parts_are_split_one_by_one, opt_view, seq_has_text,
    split, split_all, strip_prefix, trim, trimmed,
};
use crate::time::Timestamp;

pub mod intents;
pub mod ops;
pub mod queries;
pub mod webhook_admin;

verus! {

/// The token of an `Authorization` header with the `Bearer` scheme.
pub open spec fn bearer_of(authorization: Option<Seq<char>>) -> Option<Seq<char>> {
    match authorization {
        Some(v) => after_prefix(v, "Bearer "@),
        None => None,
    }
}

/// Why a caller has no tenant.
pub open spec fn tenant_error(
    keys: Map<Seq<char>, ApiKeyInfo>,
    authorization: Option<Seq<char>>,
    now: int,
) -> Option<ErrorView> {
    match bearer_of(authorization) {
        None => Some(ErrorView::AuthenticationFailed("Bearer token required"@)),
        Some(token) => if !keys.contains_key(token) {
            Some(ErrorView::AuthenticationFailed("unknown API key"@))
        } else if keys[token].expires_at matches Some(t) && t@ <= now {
            Some(ErrorView::AuthenticationFailed("API key expired"@))
        } else {
            None
        },
    }
}

/// The tenant of a caller, by its bearer token.
pub fn resolve_tenant(authorization: Option<&str>, keys: &ApiKeyStore, now: Timestamp) -> (r: Result<
    ApiKeyInfo,
    ApiError,
>)
    ensures
        match r {
            Ok(k) => tenant_error(keys@, opt_view(authorization), now@) is None && k.same_as(
                keys@[bearer_of(opt_view(authorization))->0],
            ),
            Err(e) => tenant_error(keys@, opt_view(authorization), now@) == Some(e@),
        },
{
    let bearer = match authorization {
        Some(v) => strip_prefix(v, "Bearer "),
        None => None,
    };
    match bearer {
        None => Err(ApiError::AuthenticationFailed(String::from_str("Bearer token required"))),
        Some(token) => match keys.lookup(token) {
            None => Err(ApiError::AuthenticationFailed(String::from_str("unknown API key"))),
            Some(k) => if k.is_expired_at(now) {
                Err(ApiError::AuthenticationFailed(String::from_str("API key expired")))
            } else {
                Ok(k)
            },
        },
    }
}

/// The agent that a caller names.
pub fn resolve_agent(agent_id: Option<&str>) -> (r: Result<AgentIdentifier, ApiError>)
    ensures
        match r {
            Ok(a) => agent_id matches Some(v) && a.raw@ == v@ && a.kind == crate::agent::agent_kind(
                v@,
            ),
            Err(e) => agent_id is None && e@ == ErrorView::AuthenticationFailed(
                "ICP-Agent-Id header required"@,
            ),
        },
{
    match agent_id {
        Some(v) => Ok(AgentIdentifier::parse(v)),
        None => Err(
            ApiError::AuthenticationFailed(String::from_str("ICP-Agent-Id header required")),
        ),
    }
}

/// Whether a key may be used by an agent.
pub open spec fn permits(k: ApiKeyInfo, agent: Seq<char>) -> bool {
    k.allowed_agents matches Some(list) ==> seq_has_text(list@, "*"@) || seq_has_text(list@, agent)
}

/// The error for an agent that may not use the key.
pub open spec fn agent_refused(agent: Seq<char>) -> ErrorView {
    ErrorView::AuthenticationFailed("agent `"@ + agent + "` is not allowed for this API key"@)
}

/// Refuses an agent that may not use the key.
pub fn ensure_agent_allowed(tenant: &ApiKeyInfo, agent: &AgentIdentifier) -> (r: Result<(), ApiError>)
    ensures
        match r {
            Ok(()) => permits(*tenant, agent.raw@),
            Err(e) => !permits(*tenant, agent.raw@) && e@ == agent_refused(agent.raw@),
        },
{
    if tenant.permits_agent(agent.raw.as_str()) {
        Ok(())
    } else {
        Err(
            ApiError::AuthenticationFailed(
                join3("agent `", agent.raw.as_str(), "` is not allowed for this API key"),
            ),
        )
    }
}

/// A text of the receipt in a response, when there is one and it is not empty.
pub open spec fn receipt_text(body: JsonView, name: Seq<char>) -> Option<Seq<char>> {
    match body.member("receipt"@) {
        Some(receipt) => match receipt.text_member(name) {
            Some(t) => if t.len() > 0 {
                Some(t)
            } else {
                None
            },
            None => None,
        },
        None => None,
    }
}

fn receipt_member(body: &Json, name: &str) -> (r: Option<String>)
    ensures
        crate::text::opt_text(r) == receipt_text(body@, name@),
{
    match body.get("receipt") {
        Some(receipt) => match receipt.get_str(name) {
            Some(t) => if t.is_empty() {
                None
            } else {
                Some(String::from_str(t))
            },
            None => None,
        },
        None => None,
    }
}

/// The receipt and its key, as far as a response carries them: the values of the
/// `ICP-Receipt` and `ICP-Receipt-Kid` headers.
pub fn receipt_headers(body: &Json) -> (r: (Option<String>, Option<String>))
    ensures
        crate::text::opt_text(r.0) == receipt_text(body@, "jws"@),
        crate::text::opt_text(r.1) == receipt_text(body@, "kid"@),
{
    (receipt_member(body, "jws"), receipt_member(body, "kid"))
}

/// The client that a request counts for before it is authenticated: the first
/// address of `X-Forwarded-For`, else `X-Real-IP`, as far as proxies are trusted,
/// and one bucket for all others.
pub open spec fn client_bucket(
    forwarded_for: Option<Seq<char>>,
    real_ip: Option<Seq<char>>,
    trust_proxy: bool,
) -> Seq<char> {
    if trust_proxy && forwarded_for is Some && trimmed(split_all(forwarded_for->0, ',')[0]).len()
        > 0 {
        trimmed(split_all(forwarded_for->0, ',')[0])
    } else if trust_proxy && real_ip is Some && trimmed(real_ip->0).len() > 0 {
        trimmed(real_ip->0)
    } else {
        "direct"@
    }
}

/// The client that a request counts for before it is authenticated.
pub fn client_ip_for_rate_limit(
    forwarded_for: Option<&str>,
    real_ip: Option<&str>,
    trust_proxy_headers: bool,
) -> (r: String)
    ensures
        r@ == client_bucket(opt_view(forwarded_for), opt_view(real_ip), trust_proxy_headers),
{
    if trust_proxy_headers {
        match forwarded_for {
            Some(v) => {
                let parts = split(v, ',');
                assert(crate::text::views(parts@)[0] == parts@[0]@);
                let first = trim(parts[0]);
                if !first.is_empty() {
                    return String::from_str(first);
                }
            },
            None => {},
        }
        match real_ip {
            Some(v) => {
                let t = trim(v);
                if !t.is_empty() {
                    return String::from_str(t);
                }
            },
            None => {},
        }
    }
    String::from_str("direct")
}

// ---------------------------------------------------------------------------
// Laws
// ---------------------------------------------------------------------------

/// An expired key authenticates nobody, and neither does a token that is not a
/// key.
pub proof fn law_only_live_keys_authenticate(
    keys: Map<Seq<char>, ApiKeyInfo>,
    authorization: Option<Seq<char>>,
    now: int,
)
    requires
        tenant_error(keys, authorization, now) is None,
    ensures
        bearer_of(authorization) is Some,
        keys.contains_key(bearer_of(authorization)->0),
        keys[bearer_of(authorization)->0].expires_at matches Some(t) ==> now < t@,
{
}

/// Without trusted proxies every client shares one bucket, whatever it claims.
pub proof fn law_untrusted_headers_do_not_count(
    forwarded_for: Option<Seq<char>>,
    real_ip: Option<Seq<char>>,
)
    ensures
        client_bucket(forwarded_for, real_ip, false) == "direct"@,
{
}

/// A tenant is known exactly by a bearer token that is one of its keys and has not expired.
pub proof fn law_tenants_are_known_by_a_live_key(
    keys: Map<Seq<char>, ApiKeyInfo>,
    authorization: Option<Seq<char>>,
    token: Seq<char>,
    now: int,
)
    ensures
        authorization == Some("Bearer "@ + token) ==> bearer_of(authorization) == Some(token) && (
        tenant_error(keys, authorization, now) is None <==> keys.contains_key(token) && (
        keys[token].expires_at matches Some(t) ==> now < t@)),
        authorization is None || !has_prefix(authorization->0, "Bearer "@) ==> tenant_error(
            keys,
            authorization,
            now,
        ) is Some,
        tenant_error(keys, authorization, now) matches Some(e) ==> e is AuthenticationFailed,
{
    let text = "Bearer "@ + token;
    assert(text.take("Bearer "@.len() as int) =~= "Bearer "@);
    assert(text.skip("Bearer "@.len() as int) =~= token);
}

/// A key permits every agent where it names none, or names them all, and else exactly those
/// that it names.
pub proof fn law_keys_permit_the_agents_they_name(k: ApiKeyInfo, agent: Seq<char>)
    ensures
        k.allowed_agents is None ==> permits(k, agent),
        k.allowed_agents matches Some(list) ==> (permits(k, agent) <==> exists|i: int|
            0 <= i < list@.len() && ((#[trigger] list@[i])@ == "*"@ || list@[i]@ == agent)),
{
    if k.allowed_agents is Some {
        let list = k.allowed_agents->0@;
        if permits(k, agent) {
            let i = if seq_has_text(list, "*"@) {
                choose|i: int| 0 <= i < list.len() && (#[trigger] list[i])@ == "*"@
            } else {
                choose|i: int| 0 <= i < list.len() && (#[trigger] list[i])@ == agent
            };
            assert(list[i]@ == "*"@ || list[i]@ == agent);
        }
        if exists|i: int|
            0 <= i < list.len() && ((#[trigger] list[i])@ == "*"@ || list[i]@ == agent) {
            let i = choose|i: int|
                0 <= i < list.len() && ((#[trigger] list[i])@ == "*"@ || list[i]@ == agent);
            if list[i]@ == "*"@ {
                assert(seq_has_text(list, "*"@));
            } else {
                assert(seq_has_text(list, agent));
            }
        }
    }
}

/// The texts of a receipt are those of the receipt in the body, where they are not empty.
pub proof fn law_receipt_texts_come_from_the_body(body: JsonView, name: Seq<char>)
    ensures
        body.member("receipt"@) is None ==> receipt_text(body, name) is None,
        body.member("receipt"@) matches Some(receipt) ==> match receipt.text_member(name) {
            Some(t) => (t.len() > 0 ==> receipt_text(body, name) == Some(t)) && (t.len() == 0
                ==> receipt_text(body, name) is None),
            None => receipt_text(body, name) is None,
        },
{
}

/// Behind a trusted proxy a client is known by the first address that was forwarded, or else
/// by the one that the proxy saw; without either, and without trust, all share one bucket.
pub proof fn law_clients_are_told_apart_behind_a_proxy(
    first: Seq<char>,
    rest: Seq<char>,
    real_ip: Option<Seq<char>>,
)
    requires
        !first.contains(','),
    ensures
        trimmed(first).len() > 0 ==> client_bucket(Some(first), real_ip, true) == trimmed(first)
            && client_bucket(Some(first + seq![','] + rest), real_ip, true) == trimmed(first),
        trimmed(first).len() == 0 ==> client_bucket(Some(first), real_ip, true) == client_bucket(
            None,
            real_ip,
            true,
        ),
        real_ip matches Some(ip) ==> (trimmed(ip).len() > 0 ==> client_bucket(None, real_ip, true)
            == trimmed(ip)),
        client_bucket(None, None, true) == "direct"@,
        client_bucket(Some(first), real_ip, false) == "direct"@,
{
    law_parts_are_split_one_by_one(first, ',', rest);
}

} // verus!
