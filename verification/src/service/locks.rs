//! Names of the locks under which operations run one at a time, and of the keys
//! by which retries are recognised.

use vstd::prelude::*;
use vstd::utf8::encode_utf8;

use crate::intent::Intent;
use crate::numerals::{lemma_nat_text_round_trip, nat_text, nat_to_text};
use crate::service::dispatch::IntentParams;
use crate::service::orders::returned_id;
use crate::service::IntentInput;
use crate::text::{join2, join5, opt_text};

verus! {

/// One name for two texts. The length of the first in bytes keeps apart what would
/// otherwise run together.
pub open spec fn pair_name(prefix: Seq<char>, a: Seq<char>, b: Seq<char>) -> Seq<char> {
    prefix + nat_text(encode_utf8(a).len()) + ":"@ + a + b
}

fn name_pair(prefix: &str, a: &str, b: &str) -> (r: String)
    ensures
        r@ == pair_name(prefix@, a@, b@),
{
    let bytes = a.as_bytes();
    let n = nat_to_text(bytes.len() as u128);
    join5(prefix, n.as_str(), ":", a, b)
}

/// The lock of an idempotency key of a tenant.
pub open spec fn idempotency_lock(tenant: Seq<char>, key: Seq<char>) -> Seq<char> {
    pair_name("idem:"@, tenant, key)
}

/// The name of the lock of an idempotency key of a tenant.
pub fn idempotency_lock_name(tenant_id: &str, idempotency_key: &str) -> (r: String)
    ensures
        r@ == idempotency_lock(tenant_id@, idempotency_key@),
{
    name_pair("idem:", tenant_id, idempotency_key)
}

/// The lock under which an intent runs, when it works on a row that exists: that of
/// its transaction, of its subscription, or of the quote that it pays.
pub open spec fn lock_of(intent: Intent, input: IntentInput, params: IntentParams) -> Option<
    Seq<char>,
> {
    match params {
        IntentParams::Authorize(p) => Some("txn:"@ + p.transaction_id@),
        IntentParams::Buy(p) => Some("txn:"@ + p.transaction_id@),
        IntentParams::Negotiate(p) => Some("txn:"@ + p.transaction_id@),
        IntentParams::ConfirmReceipt(p) => Some("txn:"@ + p.transaction_id@),
        IntentParams::Renew(p) => Some("sub:"@ + p.subscription_id@),
        IntentParams::SubscriptionRef(p) => Some("sub:"@ + p.subscription_id@),
        IntentParams::A2aPay(p) => match p.peer_quote_id {
            Some(id) => Some("peer_quote:"@ + id@),
            None => None,
        },
        IntentParams::Direct => if intent is Return || intent is RefundRequest {
            match returned_id(input) {
                Some(id) => Some("txn:"@ + id),
                None => None,
            }
        } else {
            None
        },
        _ => None,
    }
}

/// The name of the lock under which an intent runs.
pub fn lock_name_for(intent: Intent, input: &IntentInput, params: &IntentParams) -> (r: Option<
    String,
>)
    ensures
        opt_text(r) == lock_of(intent, *input, *params),
{
    match params {
        IntentParams::Authorize(p) => Some(transaction_lock_name(p.transaction_id.as_str())),
        IntentParams::Buy(p) => Some(transaction_lock_name(p.transaction_id.as_str())),
        IntentParams::Negotiate(p) => Some(transaction_lock_name(p.transaction_id.as_str())),
        IntentParams::ConfirmReceipt(p) => Some(transaction_lock_name(p.transaction_id.as_str())),
        IntentParams::Renew(p) => Some(subscription_lock_name(p.subscription_id.as_str())),
        IntentParams::SubscriptionRef(p) => Some(
            subscription_lock_name(p.subscription_id.as_str()),
        ),
        IntentParams::A2aPay(p) => match &p.peer_quote_id {
            Some(id) => Some(peer_quote_lock_name(id.as_str())),
            None => None,
        },
        IntentParams::Direct => match intent {
            Intent::Return | Intent::RefundRequest => match &input.envelope.transaction_id {
                Some(id) => Some(transaction_lock_name(id.as_str())),
                None => match input.envelope.params.get_str("transaction_id") {
                    Some(id) => Some(transaction_lock_name(id)),
                    None => None,
                },
            },
            _ => None,
        },
        _ => None,
    }
}

/// The key under which a retry is recognised: the one that the caller gives, else
/// its agent and the id of the intent, where it has one.
pub open spec fn retry_key(
    given: Option<Seq<char>>,
    agent: Seq<char>,
    intent_id: Option<Seq<char>>,
) -> Option<Seq<char>> {
    match given {
        Some(k) => Some(k),
        None => match intent_id {
            Some(id) => Some(pair_name("intent:"@, agent, id)),
            None => None,
        },
    }
}

/// The key under which a retry is recognised.
pub fn retry_key_for(given: &Option<String>, agent_id: &str, intent_id: &Option<String>) -> (r:
    Option<String>)
    ensures
        opt_text(r) == retry_key(opt_text(*given), agent_id@, opt_text(*intent_id)),
{
    match given {
        Some(k) => Some(k.clone()),
        None => match intent_id {
            Some(id) => Some(name_pair("intent:", agent_id, id.as_str())),
            None => None,
        },
    }
}

/// The name of the lock of a transaction.
pub fn transaction_lock_name(id: &str) -> (r: String)
    ensures
        r@ == "txn:"@ + id@,
{
    join2("txn:", id)
}

/// The name of the lock of a subscription.
pub fn subscription_lock_name(id: &str) -> (r: String)
    ensures
        r@ == "sub:"@ + id@,
{
    join2("sub:", id)
}

/// The name of the lock of a peer quote.
pub fn peer_quote_lock_name(id: &str) -> (r: String)
    ensures
        r@ == "peer_quote:"@ + id@,
{
    join2("peer_quote:", id)
}

// ---------------------------------------------------------------------------
// Laws
// ---------------------------------------------------------------------------

proof fn lemma_longer_prefix_has_more_bytes(s: Seq<char>, a: int, b: int)
    requires
        0 <= a < b <= s.len(),
    ensures
        encode_utf8(s.take(a)).len() < encode_utf8(s.take(b)).len(),
    decreases a,
{
    let x = s.take(a);
    let y = s.take(b);
    if a == 0 {
        assert(x.len() == 0);
        assert(y.len() > 0);
        assert(encode_utf8(y).len() > 0);
    } else {
        assert(x[0] == y[0]);
        assert(x.drop_first() =~= s.drop_first().take(a - 1));
        assert(y.drop_first() =~= s.drop_first().take(b - 1));
        lemma_longer_prefix_has_more_bytes(s.drop_first(), a - 1, b - 1);
    }
}

proof fn lemma_pair_names(
    prefix: Seq<char>,
    a: Seq<char>,
    b: Seq<char>,
    c: Seq<char>,
    d: Seq<char>,
)
    requires
        pair_name(prefix, a, b) == pair_name(prefix, c, d),
    ensures
        a == c,
        b == d,
{
    let n = nat_text(encode_utf8(a).len());
    let m = nat_text(encode_utf8(c).len());
    lemma_nat_text_round_trip(encode_utf8(a).len());
    lemma_nat_text_round_trip(encode_utf8(c).len());
    reveal_strlit(":");
    let rest = n + ":"@ + a + b;
    let other = m + ":"@ + c + d;
    assert(rest =~= pair_name(prefix, a, b).skip(prefix.len() as int));
    assert(other =~= pair_name(prefix, c, d).skip(prefix.len() as int));
    if n.len() < m.len() {
        assert(rest[n.len() as int] == ':');
        assert(other[n.len() as int] == m[n.len() as int]);
    }
    if m.len() < n.len() {
        assert(other[m.len() as int] == ':');
        assert(rest[m.len() as int] == n[m.len() as int]);
    }
    assert(n =~= rest.take(n.len() as int));
    assert(m =~= other.take(m.len() as int));
    let tail = rest.skip(n.len() as int + 1);
    assert(tail =~= a + b);
    assert(tail =~= c + d);
    assert(tail.take(a.len() as int) =~= a);
    assert(tail.take(c.len() as int) =~= c);
    if a.len() < c.len() {
        lemma_longer_prefix_has_more_bytes(tail, a.len() as int, c.len() as int);
    }
    if c.len() < a.len() {
        lemma_longer_prefix_has_more_bytes(tail, c.len() as int, a.len() as int);
    }
    assert(tail.skip(a.len() as int) =~= b);
    assert(tail.skip(c.len() as int) =~= d);
}

/// Two requests share the lock of an idempotency key only when they come from one
/// tenant under one key.
pub proof fn law_idempotency_locks_do_not_collide(
    tenant: Seq<char>,
    key: Seq<char>,
    other_tenant: Seq<char>,
    other_key: Seq<char>,
)
    requires
        idempotency_lock(tenant, key) == idempotency_lock(other_tenant, other_key),
    ensures
        tenant == other_tenant,
        key == other_key,
{
    lemma_pair_names("idem:"@, tenant, key, other_tenant, other_key);
}

/// Without keys of their own, two requests count as one only when they are the same
/// intent of the same agent.
pub proof fn law_retries_are_told_apart(
    agent: Seq<char>,
    intent_id: Seq<char>,
    other_agent: Seq<char>,
    other_id: Seq<char>,
)
    requires
        retry_key(None, agent, Some(intent_id)) == retry_key(None, other_agent, Some(other_id)),
    ensures
        agent == other_agent,
        intent_id == other_id,
{
    lemma_pair_names("intent:"@, agent, intent_id, other_agent, other_id);
}

/// Locks of different kinds are never the same lock.
pub proof fn law_lock_kinds_are_apart(
    tenant: Seq<char>,
    key: Seq<char>,
    transaction: Seq<char>,
    subscription: Seq<char>,
    quote: Seq<char>,
)
    ensures
        idempotency_lock(tenant, key) != "txn:"@ + transaction,
        idempotency_lock(tenant, key) != "sub:"@ + subscription,
        idempotency_lock(tenant, key) != "peer_quote:"@ + quote,
        "txn:"@ + transaction != "sub:"@ + subscription,
        "txn:"@ + transaction != "peer_quote:"@ + quote,
        "sub:"@ + subscription != "peer_quote:"@ + quote,
{
    reveal_strlit("idem:");
    reveal_strlit("txn:");
    reveal_strlit("sub:");
    reveal_strlit("peer_quote:");
    assert(idempotency_lock(tenant, key)[0] == 'i');
    assert(("txn:"@ + transaction)[0] == 't');
    assert(("sub:"@ + subscription)[0] == 's');
    assert(("peer_quote:"@ + quote)[0] == 'p');
}

/// An intent runs under the lock of the row that it moves: the transaction, the subscription
/// or the quote between agents that it names. Those that move no row need none.
pub proof fn law_intents_lock_the_row_they_move(
    intent: Intent,
    input: IntentInput,
    params: IntentParams,
)
    ensures
        match params {
            IntentParams::Authorize(p) => lock_of(intent, input, params) == Some(
                "txn:"@ + p.transaction_id@,
            ),
            IntentParams::Buy(p) => lock_of(intent, input, params) == Some(
                "txn:"@ + p.transaction_id@,
            ),
            IntentParams::Negotiate(p) => lock_of(intent, input, params) == Some(
                "txn:"@ + p.transaction_id@,
            ),
            IntentParams::ConfirmReceipt(p) => lock_of(intent, input, params) == Some(
                "txn:"@ + p.transaction_id@,
            ),
            IntentParams::Renew(p) => lock_of(intent, input, params) == Some(
                "sub:"@ + p.subscription_id@,
            ),
            IntentParams::SubscriptionRef(p) => lock_of(intent, input, params) == Some(
                "sub:"@ + p.subscription_id@,
            ),
            IntentParams::A2aPay(p) => match p.peer_quote_id {
                Some(id) => lock_of(intent, input, params) == Some("peer_quote:"@ + id@),
                None => lock_of(intent, input, params) is None,
            },
            IntentParams::Direct => match input.envelope.transaction_id {
                Some(id) => lock_of(intent, input, params) == (if intent is Return || intent
                    is RefundRequest {
                    Some("txn:"@ + id@)
                } else {
                    None
                }),
                None => intent is Track || intent is Search || intent is Describe ==> lock_of(
                    intent,
                    input,
                    params,
                ) is None,
            },
            _ => lock_of(intent, input, params) is None,
        },
{
}

/// A retry is known by the key that was given, or else by its agent and the id of the intent,
/// and without either it is none.
pub proof fn law_retries_are_known_by_key_or_intent(
    given: Option<Seq<char>>,
    agent: Seq<char>,
    intent_id: Option<Seq<char>>,
)
    ensures
        given is Some ==> retry_key(given, agent, intent_id) == given,
        given is None ==> (retry_key(given, agent, intent_id) is Some <==> intent_id is Some),
{
}

} // verus!
