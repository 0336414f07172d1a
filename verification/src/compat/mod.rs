//! Compatibility with other checkout protocols.
//!
//! Each speaks its own wire format and runs the same intents, so it leaves the
//! same transactions, events and receipts behind. The bearer key of a tenant is
//! its mandate for its own shop.

use vstd::prelude::*;

use crate::agent::{agent_kind, AgentIdentifier, ApiKeyInfo, ApiKeyStore};
use crate::errors::{ApiError, ErrorView};
use crate::handlers::bearer_of;
use crate::json::{lemma_member_found, Json, JsonView, ObjectBuilder};
use crate::models::{IntentContext, IntentEnvelope, Transaction};
use crate::service::{IcpService, IntentInput};
use crate::text::{join2, opt_text, strip_prefix};
use crate::time::Timestamp;

pub mod acp;
pub mod ucp;

verus! {

/// The headers of a request that the protocols read.
#[derive(Debug)]
pub struct CompatHeaders {
    pub authorization: Option<String>,
    /// The version of the protocol that the caller speaks.
    pub version: Option<String>,
    pub request_id: Option<String>,
    pub trace_parent: Option<String>,
}

/// A caller.
#[derive(Debug)]
pub struct CompatContext {
    pub tenant: ApiKeyInfo,
    pub agent: AgentIdentifier,
    pub request_id: String,
    pub trace_id: Option<String>,
}

/// Why a caller has no tenant.
pub open spec fn key_error(keys: Map<Seq<char>, ApiKeyInfo>, authorization: Option<Seq<char>>) -> Option<
    ErrorView,
> {
    match bearer_of(authorization) {
        None => Some(ErrorView::AuthenticationFailed("Bearer token required"@)),
        Some(token) => if keys.contains_key(token) {
            None
        } else {
            Some(ErrorView::AuthenticationFailed("unknown API key"@))
        },
    }
}

/// The tenant of a caller.
pub(crate) fn tenant_of(headers: &CompatHeaders, keys: &ApiKeyStore) -> (r: Result<
    ApiKeyInfo,
    ApiError,
>)
    ensures
        match r {
            Ok(k) => key_error(keys@, opt_text(headers.authorization)) is None && k.same_as(
                keys@[bearer_of(opt_text(headers.authorization))->0],
            ),
            Err(e) => key_error(keys@, opt_text(headers.authorization)) == Some(e@),
        },
{
    let bearer = match &headers.authorization {
        Some(v) => strip_prefix(v.as_str(), "Bearer "),
        None => None,
    };
    match bearer {
        None => Err(ApiError::AuthenticationFailed(String::from_str("Bearer token required"))),
        Some(token) => match keys.lookup(token) {
            Some(k) => Ok(k),
            None => Err(ApiError::AuthenticationFailed(String::from_str("unknown API key"))),
        },
    }
}

/// Whether this is the context of a caller of the tenant, under the agent that a
/// protocol uses for it.
pub open spec fn context_of(
    c: CompatContext,
    tenant: ApiKeyInfo,
    agent_prefix: Seq<char>,
    headers: CompatHeaders,
    fresh_request_id: String,
) -> bool {
    &&& c.tenant.same_as(tenant)
    &&& c.agent.raw@ == agent_prefix + tenant.tenant_id@
    &&& c.agent.kind == agent_kind(agent_prefix + tenant.tenant_id@)
    &&& c.request_id == (match headers.request_id {
        Some(id) => id,
        None => fresh_request_id,
    })
    &&& c.trace_id == headers.trace_parent
}

/// The context of a caller of the tenant.
pub(crate) fn context_for(
    tenant: ApiKeyInfo,
    agent_prefix: &str,
    headers: CompatHeaders,
    fresh_request_id: String,
) -> (c: CompatContext)
    ensures
        context_of(c, tenant, agent_prefix@, headers, fresh_request_id),
{
    let raw = join2(agent_prefix, tenant.tenant_id.as_str());
    let agent = AgentIdentifier::parse(raw.as_str());
    let request_id = match headers.request_id {
        Some(id) => id,
        None => fresh_request_id,
    };
    CompatContext { tenant, agent, request_id, trace_id: headers.trace_parent }
}

/// Whether this is the intent that a caller raises.
pub open spec fn raised_by(
    i: IntentInput,
    c: CompatContext,
    intent: Seq<char>,
    params: JsonView,
    currency: Option<String>,
) -> bool {
    &&& i.envelope.intent@ == intent
    &&& i.envelope.intent_id is None
    &&& i.envelope.transaction_id is None
    &&& i.envelope.agent_id == c.agent.raw
    &&& i.envelope.mandate_jti is None
    &&& i.envelope.params@ == params
    &&& i.envelope.context.locale is None
    &&& i.envelope.context.jurisdiction is None
    &&& i.envelope.context.currency == currency
    &&& i.envelope.context.channel is None
    &&& i.envelope.context.session_hint is None
    &&& i.agent == c.agent
    &&& i.tenant == c.tenant
    &&& i.mandate_jws is None
    &&& i.request_id == c.request_id
    &&& i.trace_id == c.trace_id
    &&& i.skip_mandate_check
}

/// The intent that a caller raises.
pub fn compat_input(c: CompatContext, intent: &str, params: Json, currency: Option<String>) -> (i:
    IntentInput)
    ensures
        raised_by(i, c, intent@, params@, currency),
{
    let mut context = IntentContext::default();
    context.currency = currency;
    let envelope = IntentEnvelope {
        intent: String::from_str(intent),
        intent_id: None,
        transaction_id: None,
        agent_id: c.agent.raw.clone(),
        mandate_jti: None,
        params,
        context,
    };
    IntentInput::for_compat(envelope, c.agent, c.tenant, c.request_id, c.trace_id)
}

/// The parameters that name a transaction.
pub open spec fn names_transaction(id: Seq<char>) -> JsonView {
    JsonView::Object(Seq::empty().push(("transaction_id"@, JsonView::Str(id))))
}

/// The parameters that name a transaction.
pub fn transaction_params(id: &str) -> (r: Json)
    ensures
        r@ == names_transaction(id@),
{
    ObjectBuilder::new().put_str("transaction_id", id).build()
}

/// The transaction with a reference to itself under the key of a protocol.
pub open spec fn stamped(before: Transaction, t: Transaction, key: Seq<char>, now: Timestamp) -> bool {
    &&& t == (Transaction { external_refs: t.external_refs, updated_at: now, ..before })
    &&& t.external_refs@ == before.external_refs@.insert(key, before.id)
}

impl IcpService {
    /// Marks a transaction as the session of a protocol; without effect when
    /// there is no such transaction.
    pub fn stamp_external_ref(&mut self, id: &str, key: &str, now: Timestamp)
        requires
            old(self).wf(),
        ensures
            final(self).wf(),
            *final(self) == (IcpService { transactions: final(self).transactions, ..*old(self) }),
            ({
                let m = old(self).transactions@;
                let after = final(self).transactions@;
                if m.contains_key(id@) {
                    after == m.insert(id@, after[id@]) && stamped(m[id@], after[id@], key@, now)
                } else {
                    after == m
                }
            }),
    {
        let ghost m = self.transactions@;
        match self.take_transaction(id) {
            Some(mut t) => {
                let own = t.id.clone();
                t.external_refs.insert(String::from_str(key), own);
                t.updated_at = now;
                self.put_transaction(t);
                assert(self.transactions@ =~= m.insert(id@, t));
            },
            None => {
                assert(self.transactions@ =~= m);
            },
        }
    }

    /// The transaction behind a session.
    pub(crate) fn session_transaction(&self, id: &str, kind: &str) -> (r: Result<
        Transaction,
        ApiError,
    >)
        ensures
            match r {
                Ok(t) => self.transactions@.contains_key(id@) && t.same_as(self.transactions@[id@]),
                Err(e) => !self.transactions@.contains_key(id@) && e@
                    == ErrorView::ResourceNotFound(kind@ + id@),
            },
    {
        match self.transactions.get(id) {
            Some(t) => Ok(t.clone()),
            None => Err(ApiError::ResourceNotFound(join2(kind, id))),
        }
    }
}

// ---------------------------------------------------------------------------
// Laws
// ---------------------------------------------------------------------------

/// A compatibility path lets in whoever bears a known key.
pub proof fn law_compat_callers_bear_a_known_key(
    keys: Map<Seq<char>, ApiKeyInfo>,
    authorization: Option<Seq<char>>,
    token: Seq<char>,
)
    ensures
        authorization == Some("Bearer "@ + token) ==> (key_error(keys, authorization) is None
            <==> keys.contains_key(token)),
        authorization is None ==> key_error(keys, authorization) is Some,
        key_error(keys, authorization) matches Some(e) ==> e is AuthenticationFailed,
{
    let text = "Bearer "@ + token;
    assert(text.take("Bearer "@.len() as int) =~= "Bearer "@);
    assert(text.skip("Bearer "@.len() as int) =~= token);
}

/// The caller of a compatibility path acts for its own shop, as an agent of that shop; the
/// request keeps its id, or gets a fresh one.
pub proof fn law_compat_callers_act_for_their_shop(
    c: CompatContext,
    tenant: ApiKeyInfo,
    prefix: Seq<char>,
    headers: CompatHeaders,
    fresh: String,
)
    requires
        context_of(c, tenant, prefix, headers, fresh),
    ensures
        c.tenant.tenant_id == tenant.tenant_id && c.agent.raw@ == prefix + tenant.tenant_id@,
        headers.request_id matches Some(id) ==> c.request_id == id,
        headers.request_id is None ==> c.request_id == fresh,
        c.trace_id == headers.trace_parent,
{
}

/// What a compatibility path raises is an intent of its caller with exactly the parameters and
/// the currency that it was given, and without a mandate.
pub proof fn law_compat_intents_are_raised_as_given(
    i: IntentInput,
    c: CompatContext,
    intent: Seq<char>,
    params: JsonView,
    currency: Option<String>,
)
    requires
        raised_by(i, c, intent, params, currency),
    ensures
        i.envelope.intent@ == intent && i.envelope.params@ == params
            && i.envelope.context.currency == currency,
        i.envelope.agent_id == c.agent.raw && i.agent == c.agent && i.tenant == c.tenant
            && i.request_id == c.request_id && i.trace_id == c.trace_id,
        i.mandate_jws is None && i.skip_mandate_check && i.envelope.transaction_id is None,
{
}

/// The parameters that name a transaction name that one.
pub proof fn law_transactions_are_named(id: Seq<char>)
    ensures
        names_transaction(id).member("transaction_id"@) == Some(JsonView::Str(id)),
{
    lemma_member_found(names_transaction(id)->Object_0, "transaction_id"@, 0, 0);
}

/// A stamp adds one reference to a transaction and changes nothing else of it.
pub proof fn law_stamps_add_a_reference(
    before: Transaction,
    t: Transaction,
    key: Seq<char>,
    now: Timestamp,
)
    requires
        stamped(before, t, key, now),
    ensures
        t.external_refs@.contains_key(key) && t.external_refs@[key] == before.id,
        forall|k: Seq<char>|
            k != key ==> (t.external_refs@.contains_key(k) <==> before.external_refs@.contains_key(
                k,
            )) && #[trigger] t.external_refs@[k] == before.external_refs@[k],
        t.id == before.id && t.state == before.state && t.totals == before.totals && t.line_items
            == before.line_items && t.buyer == before.buyer && t.order_id == before.order_id
            && t.created_at == before.created_at && t.updated_at == now,
{
}

} // verus!
