//! Agent identity and tenant credentials.
//!
//! Every request identifies two principals: the tenant, resolved through the
//! bearer API key, and the agent, named by the `ICP-Agent-Id` header.

use vstd::prelude::*;

use crate::numerals::{nat_text, nat_to_text};
use crate::table::Table;
use crate::text::{
    has_prefix, has_text, is_blank, join2, join3, law_trimming_leaves_what_is_filled,
    seq_has_text, starts_with, str_eq, string_views, trim, trimmed,
};
use crate::time::Timestamp;

verus! {

/// An API key and the tenant it belongs to.
#[derive(Debug)]
pub struct ApiKeyInfo {
    pub key: String,
    pub tenant_id: String,
    pub name: String,
    pub rate_limit_per_minute: Option<u32>,
    /// The agents that may use the key; any agent when absent.
    pub allowed_agents: Option<Vec<String>>,
    pub expires_at: Option<Timestamp>,
}

impl ApiKeyInfo {
    /// Whether the two hold the same values.
    pub open spec fn same_as(self, other: Self) -> bool {
        &&& self == (ApiKeyInfo { allowed_agents: self.allowed_agents, ..other })
        &&& match (self.allowed_agents, other.allowed_agents) {
            (Some(a), Some(b)) => a@ == b@,
            (None, None) => true,
            _ => false,
        }
    }

    /// Whether the key no longer holds at `now`.
    pub fn is_expired_at(&self, now: Timestamp) -> (r: bool)
        ensures
            r == (self.expires_at matches Some(t) && t@ <= now@),
    {
        match &self.expires_at {
            Some(t) => t.at_or_before(&now),
            None => false,
        }
    }

    /// Whether the key may be used by the agent: the list of agents is absent,
    /// holds `*`, or holds the agent.
    pub fn permits_agent(&self, agent_id: &str) -> (r: bool)
        ensures
            r == (self.allowed_agents matches Some(list) ==> seq_has_text(list@, "*"@)
                || seq_has_text(list@, agent_id@)),
    {
        match &self.allowed_agents {
            Some(list) => has_text(list, "*") || has_text(list, agent_id),
            None => true,
        }
    }
}

impl Clone for ApiKeyInfo {
    fn clone(&self) -> (r: Self)
        ensures
            r.same_as(*self),
    {
        let allowed_agents = match &self.allowed_agents {
            Some(list) => {
                let copy = list.clone();
                assert(copy@ =~= list@);
                Some(copy)
            },
            None => None,
        };
        ApiKeyInfo {
            key: self.key.clone(),
            tenant_id: self.tenant_id.clone(),
            name: self.name.clone(),
            rate_limit_per_minute: self.rate_limit_per_minute,
            allowed_agents,
            expires_at: self.expires_at,
        }
    }
}

/// The keys of a deployment, by their text.
#[derive(Debug)]
pub struct ApiKeyStore {
    inner: Table<ApiKeyInfo>,
}

/// The map from key text to key; of two with the same text the later one
/// counts.
pub open spec fn keys_by_text(keys: Seq<ApiKeyInfo>) -> Map<Seq<char>, ApiKeyInfo>
    decreases keys.len(),
{
    if keys.len() == 0 {
        Map::empty()
    } else {
        keys_by_text(keys.drop_last()).insert(keys.last().key@, keys.last())
    }
}

impl View for ApiKeyStore {
    type V = Map<Seq<char>, ApiKeyInfo>;

    closed spec fn view(&self) -> Map<Seq<char>, ApiKeyInfo> {
        self.inner@
    }
}

impl ApiKeyStore {
    /// A store of the given keys; of two with the same text the later one
    /// counts.
    pub fn new(keys: Vec<ApiKeyInfo>) -> (r: ApiKeyStore)
        ensures
            r@ == keys_by_text(keys@),
    {
        let mut inner: Table<ApiKeyInfo> = Table::new();
        let ghost all = keys@;
        for k in it: keys
            invariant
                it.seq() == all,
                inner@ == keys_by_text(all.take(it.index() as int)),
        {
            assert(all.take(it.index() as int + 1).drop_last() =~= all.take(it.index() as int));
            inner.insert(k.key.clone(), k);
        }
        assert(all.take(all.len() as int) =~= all);
        ApiKeyStore { inner }
    }

    /// A store of the given keys, when they form a valid configuration.
    pub fn try_new(keys: Vec<ApiKeyInfo>) -> (r: Result<ApiKeyStore, String>)
        ensures
            match r {
                Ok(store) => key_issues(keys@).len() == 0 && store@ == keys_by_text(keys@),
                Err(m) => key_issues(keys@).len() > 0 && m@ == issues_text(key_issues(keys@)),
            },
    {
        match validate_api_keys(&keys) {
            Ok(()) => Ok(ApiKeyStore::new(keys)),
            Err(m) => Err(m),
        }
    }

    /// The bundled key for demonstrations.
    pub fn demo() -> (r: ApiKeyStore)
        ensures
            forall|k: Seq<char>| #[trigger] r@.contains_key(k) <==> k == "icp_demo_key_123"@,
            ({
                let k = r@["icp_demo_key_123"@];
                &&& k.key@ == "icp_demo_key_123"@
                &&& k.tenant_id@ == "merchant_demo"@
                &&& k.name@ == "Bundled demo key"@
                &&& k.rate_limit_per_minute == Some(300u32)
                &&& k.allowed_agents is None
                &&& k.expires_at is None
            }),
    {
        let info = ApiKeyInfo {
            key: String::from_str("icp_demo_key_123"),
            tenant_id: String::from_str("merchant_demo"),
            name: String::from_str("Bundled demo key"),
            rate_limit_per_minute: Some(300),
            allowed_agents: None,
            expires_at: None,
        };
        let keys = vec![info];
        let r = ApiKeyStore::new(keys);
        assert(keys@.drop_last() =~= Seq::<ApiKeyInfo>::empty());
        assert(keys_by_text(keys@.drop_last()) =~= Map::<Seq<char>, ApiKeyInfo>::empty());
        r
    }

    /// The key with this text.
    pub fn lookup(&self, bearer: &str) -> (r: Option<ApiKeyInfo>)
        ensures
            match r {
                Some(k) => self@.contains_key(bearer@) && k.same_as(self@[bearer@]),
                None => !self@.contains_key(bearer@),
            },
    {
        match self.inner.get(bearer) {
            Some(k) => Some(k.clone()),
            None => None,
        }
    }

    /// Whether the store holds no key.
    pub fn is_empty(&self) -> (r: bool)
        ensures
            r == (self@.dom().len() == 0),
    {
        self.inner.len() == 0
    }
}

// ---------------------------------------------------------------------------
// Validation
// ---------------------------------------------------------------------------

/// `entry <idx>: ` followed by the complaint.
pub open spec fn entry_issue(idx: int, complaint: Seq<char>) -> Seq<char> {
    "entry "@ + nat_text(idx as nat) + ": "@ + complaint
}

/// The complaints on a text that must be neither blank nor padded with white
/// space.
pub open spec fn text_issues(idx: int, value: Seq<char>, label: Seq<char>) -> Seq<Seq<char>> {
    if trimmed(value).len() == 0 {
        seq![entry_issue(idx, label + " must not be empty"@)]
    } else if trimmed(value) != value {
        seq![entry_issue(idx, label + " must not have surrounding whitespace"@)]
    } else {
        Seq::empty()
    }
}

/// How the agent at position `a` of a list is called in complaints.
pub open spec fn agent_label(a: int) -> Seq<char> {
    "allowed_agents["@ + nat_text(a as nat) + "]"@
}

/// The complaints on the first `n` agents of a list.
pub open spec fn agent_issues(idx: int, agents: Seq<String>, n: int) -> Seq<Seq<char>>
    decreases n,
{
    if n <= 0 {
        Seq::empty()
    } else {
        agent_issues(idx, agents, n - 1) + text_issues(idx, agents[n - 1]@, agent_label(n - 1))
    }
}

/// Whether an earlier entry has the same key text.
pub open spec fn repeats_key(keys: Seq<ApiKeyInfo>, idx: int) -> bool {
    exists|j: int| 0 <= j < idx && (#[trigger] keys[j]).key@ == keys[idx].key@
}

/// The complaints on the entry at position `idx`.
pub open spec fn issues_at(keys: Seq<ApiKeyInfo>, idx: int) -> Seq<Seq<char>> {
    let k = keys[idx];
    text_issues(idx, k.key@, "key"@) + text_issues(idx, k.tenant_id@, "tenant_id"@) + (if trimmed(
        k.name@,
    ).len() == 0 {
        seq![entry_issue(idx, "name must not be empty"@)]
    } else {
        Seq::empty()
    }) + (if repeats_key(keys, idx) {
        seq![entry_issue(idx, "duplicate API key"@)]
    } else {
        Seq::empty()
    }) + (match k.allowed_agents {
        Some(agents) => agent_issues(idx, agents@, agents@.len() as int),
        None => Seq::empty(),
    })
}

/// The complaints on the first `n` entries.
pub open spec fn issues_before(keys: Seq<ApiKeyInfo>, n: int) -> Seq<Seq<char>>
    decreases n,
{
    if n <= 0 {
        Seq::empty()
    } else {
        issues_before(keys, n - 1) + issues_at(keys, n - 1)
    }
}

/// Everything that is wrong with a configuration of keys.
pub open spec fn key_issues(keys: Seq<ApiKeyInfo>) -> Seq<Seq<char>> {
    issues_before(keys, keys.len() as int)
}

/// The texts in a row, with `sep` between neighbours.
pub open spec fn joined(parts: Seq<Seq<char>>, sep: Seq<char>) -> Seq<char>
    decreases parts.len(),
{
    if parts.len() == 0 {
        Seq::empty()
    } else if parts.len() == 1 {
        parts[0]
    } else {
        joined(parts.drop_last(), sep) + sep + parts.last()
    }
}

/// The message that lists the complaints.
pub open spec fn issues_text(issues: Seq<Seq<char>>) -> Seq<char> {
    "invalid API key configuration: "@ + joined(issues, "; "@)
}

/// Puts the texts in a row, with `sep` between neighbours.
pub(crate) fn join_all(parts: &Vec<String>, sep: &str) -> (r: String)
    ensures
        r@ == joined(string_views(parts@), sep@),
{
    let mut out = String::new();
    let mut i: usize = 0;
    while i < parts.len()
        invariant
            i <= parts@.len(),
            out@ == joined(string_views(parts@.take(i as int)), sep@),
        decreases parts@.len() - i,
    {
        let ghost before = string_views(parts@.take(i as int));
        let ghost after = string_views(parts@.take(i as int + 1));
        assert(after.drop_last() =~= before);
        assert(after.last() == parts@[i as int]@);
        if i > 0 {
            out.append(sep);
        }
        out.append(parts[i].as_str());
        if i == 0 {
            assert(out@ =~= parts@[0]@);
        }
        i += 1;
    }
    assert(parts@.take(parts@.len() as int) =~= parts@);
    out
}

fn note(issues: &mut Vec<String>, idx: usize, complaint: &str)
    ensures
        string_views(final(issues)@) == string_views(old(issues)@).push(
            entry_issue(idx as int, complaint@),
        ),
{
    let number = nat_to_text(idx as u128);
    let mut text = join3("entry ", number.as_str(), ": ");
    text.append(complaint);
    issues.push(text);
    assert(string_views(issues@) =~= string_views(old(issues)@).push(text@));
}

fn check_text(issues: &mut Vec<String>, idx: usize, value: &str, label: &str)
    ensures
        string_views(final(issues)@) == string_views(old(issues)@) + text_issues(
            idx as int,
            value@,
            label@,
        ),
{
    let inner = trim(value);
    if inner.is_empty() {
        let complaint = join2(label, " must not be empty");
        note(issues, idx, complaint.as_str());
    } else if !str_eq(inner, value) {
        let complaint = join2(label, " must not have surrounding whitespace");
        note(issues, idx, complaint.as_str());
    }
    assert(string_views(issues@) =~= string_views(old(issues)@) + text_issues(
        idx as int,
        value@,
        label@,
    ));
}

fn check_agents(issues: &mut Vec<String>, idx: usize, agents: &Vec<String>)
    ensures
        string_views(final(issues)@) == string_views(old(issues)@) + agent_issues(
            idx as int,
            agents@,
            agents@.len() as int,
        ),
{
    let ghost start = string_views(issues@);
    let mut a: usize = 0;
    assert(start + agent_issues(idx as int, agents@, 0) =~= start);
    while a < agents.len()
        invariant
            a <= agents@.len(),
            string_views(issues@) == start + agent_issues(idx as int, agents@, a as int),
        decreases agents@.len() - a,
    {
        let number = nat_to_text(a as u128);
        let label = join3("allowed_agents[", number.as_str(), "]");
        check_text(issues, idx, agents[a].as_str(), label.as_str());
        assert(start + agent_issues(idx as int, agents@, a as int) + text_issues(
            idx as int,
            agents@[a as int]@,
            agent_label(a as int),
        ) =~= start + agent_issues(idx as int, agents@, a as int + 1));
        a += 1;
    }
}

fn repeats(keys: &Vec<ApiKeyInfo>, idx: usize) -> (r: bool)
    requires
        idx < keys@.len(),
    ensures
        r == repeats_key(keys@, idx as int),
{
    let mut j: usize = 0;
    while j < idx
        invariant
            j <= idx < keys@.len(),
            forall|i: int| 0 <= i < j ==> (#[trigger] keys@[i]).key@ != keys@[idx as int].key@,
        decreases idx - j,
    {
        if str_eq(keys[j].key.as_str(), keys[idx].key.as_str()) {
            return true;
        }
        j += 1;
    }
    false
}

/// Checks a configuration of keys: no blank or padded key or tenant, no blank
/// name, no key twice, no blank or padded agent. All complaints are reported at
/// once.
pub fn validate_api_keys(keys: &Vec<ApiKeyInfo>) -> (r: Result<(), String>)
    ensures
        match r {
            Ok(()) => key_issues(keys@).len() == 0,
            Err(m) => key_issues(keys@).len() > 0 && m@ == issues_text(key_issues(keys@)),
        },
{
    let mut issues: Vec<String> = Vec::new();
    let mut idx: usize = 0;
    assert(string_views(issues@) =~= Seq::<Seq<char>>::empty());
    while idx < keys.len()
        invariant
            idx <= keys@.len(),
            string_views(issues@) == issues_before(keys@, idx as int),
        decreases keys@.len() - idx,
    {
        let ghost start = string_views(issues@);
        let k = &keys[idx];
        check_text(&mut issues, idx, k.key.as_str(), "key");
        check_text(&mut issues, idx, k.tenant_id.as_str(), "tenant_id");
        if is_blank(k.name.as_str()) {
            note(&mut issues, idx, "name must not be empty");
        }
        if repeats(keys, idx) {
            note(&mut issues, idx, "duplicate API key");
        }
        match &k.allowed_agents {
            Some(agents) => {
                check_agents(&mut issues, idx, agents);
            },
            None => {},
        }
        assert(string_views(issues@) =~= start + issues_at(keys@, idx as int));
        idx += 1;
    }
    if issues.len() == 0 {
        Ok(())
    } else {
        let list = join_all(&issues, "; ");
        assert(string_views(issues@).len() == issues@.len());
        Err(join2("invalid API key configuration: ", list.as_str()))
    }
}

// ---------------------------------------------------------------------------
// Agents
// ---------------------------------------------------------------------------

/// What kind of name an agent goes by.
#[derive(Debug, Clone, Copy, PartialEq, Eq, Structural)]
pub enum AgentIdKind {
    DidStateset,
    DidKey,
    DidWeb,
    HttpsProfile,
    Opaque,
}

/// The kind of an agent name, by its prefix.
pub open spec fn agent_kind(raw: Seq<char>) -> AgentIdKind {
    if has_prefix(raw, "did:stateset:agent:"@) {
        AgentIdKind::DidStateset
    } else if has_prefix(raw, "did:key:"@) {
        AgentIdKind::DidKey
    } else if has_prefix(raw, "did:web:"@) {
        AgentIdKind::DidWeb
    } else if has_prefix(raw, "https://"@) {
        AgentIdKind::HttpsProfile
    } else {
        AgentIdKind::Opaque
    }
}

/// The name of an agent: a DID, an HTTPS profile, or an opaque id.
#[derive(Debug)]
pub struct AgentIdentifier {
    pub raw: String,
    pub kind: AgentIdKind,
}

impl AgentIdentifier {
    /// Classifies an agent name.
    pub fn parse(raw: &str) -> (r: AgentIdentifier)
        ensures
            r.raw@ == raw@,
            r.kind == agent_kind(raw@),
    {
        let kind = if starts_with(raw, "did:stateset:agent:") {
            AgentIdKind::DidStateset
        } else if starts_with(raw, "did:key:") {
            AgentIdKind::DidKey
        } else if starts_with(raw, "did:web:") {
            AgentIdKind::DidWeb
        } else if starts_with(raw, "https://") {
            AgentIdKind::HttpsProfile
        } else {
            AgentIdKind::Opaque
        };
        AgentIdentifier { raw: String::from_str(raw), kind }
    }
}

/// The kind of an agent is told by how its id begins.
pub proof fn law_agents_are_told_apart_by_prefix(rest: Seq<char>)
    ensures
        agent_kind("did:stateset:agent:"@ + rest) is DidStateset,
        agent_kind("did:key:"@ + rest) is DidKey,
        agent_kind("did:web:"@ + rest) is DidWeb,
        agent_kind("https://"@ + rest) is HttpsProfile,
        !has_prefix(rest, "did:stateset:agent:"@) && !has_prefix(rest, "did:key:"@) && !has_prefix(
            rest,
            "did:web:"@,
        ) && !has_prefix(rest, "https://"@) ==> agent_kind(rest) is Opaque,
{
    reveal_strlit("did:stateset:agent:");
    reveal_strlit("did:key:");
    reveal_strlit("did:web:");
    reveal_strlit("https://");
    let a = "did:stateset:agent:"@ + rest;
    let k = "did:key:"@ + rest;
    let w = "did:web:"@ + rest;
    let h = "https://"@ + rest;
    assert(a.take("did:stateset:agent:"@.len() as int) =~= "did:stateset:agent:"@);
    assert(k.take("did:key:"@.len() as int) =~= "did:key:"@);
    assert(w.take("did:web:"@.len() as int) =~= "did:web:"@);
    assert(h.take("https://"@.len() as int) =~= "https://"@);
    assert(k[4] == 'k' && w[4] == 'w' && h[0] == 'h');
    lemma_prefix_char(k, "did:stateset:agent:"@, 4);
    lemma_prefix_char(w, "did:stateset:agent:"@, 4);
    lemma_prefix_char(w, "did:key:"@, 4);
    lemma_prefix_char(h, "did:stateset:agent:"@, 0);
    lemma_prefix_char(h, "did:key:"@, 0);
    lemma_prefix_char(h, "did:web:"@, 0);
}

proof fn lemma_prefix_char(s: Seq<char>, p: Seq<char>, i: int)
    requires
        0 <= i < p.len(),
    ensures
        has_prefix(s, p) ==> s[i] == p[i],
{
    if has_prefix(s, p) {
        assert(s.take(p.len() as int)[i] == s[i]);
    }
}

/// Every key of a list is known by its text, and no other text is; of two with the same text
/// the later one counts.
pub proof fn law_keys_are_known_by_their_text(keys: Seq<ApiKeyInfo>, text: Seq<char>)
    ensures
        keys_by_text(keys).contains_key(text) <==> exists|i: int|
            0 <= i < keys.len() && (#[trigger] keys[i]).key@ == text,
        forall|i: int|
            0 <= i < keys.len() && (#[trigger] keys[i]).key@ == text && (forall|j: int|
                i < j < keys.len() ==> (#[trigger] keys[j]).key@ != text) ==> keys_by_text(
                keys,
            )[text] == keys[i],
    decreases keys.len(),
{
    if keys.len() > 0 {
        let rest = keys.drop_last();
        law_keys_are_known_by_their_text(rest, text);
        if keys_by_text(rest).contains_key(text) {
            let i = choose|i: int| 0 <= i < rest.len() && (#[trigger] rest[i]).key@ == text;
            assert(keys[i].key@ == text);
        }
        assert forall|i: int|
            0 <= i < keys.len() && (#[trigger] keys[i]).key@ == text && (forall|j: int|
                i < j < keys.len() ==> (#[trigger] keys[j]).key@ != text) implies keys_by_text(
            keys,
        )[text] == keys[i] by {
            if i < keys.len() - 1 {
                assert(keys[keys.len() - 1].key@ != text);
                assert(rest[i].key@ == text);
                assert forall|j: int| i < j < rest.len() implies (#[trigger] rest[j]).key@
                    != text by {
                    assert(rest[j] == keys[j]);
                }
            }
        }
        if exists|i: int| 0 <= i < keys.len() && (#[trigger] keys[i]).key@ == text {
            let i = choose|i: int| 0 <= i < keys.len() && (#[trigger] keys[i]).key@ == text;
            if i < keys.len() - 1 {
                assert(rest[i].key@ == text);
            }
        }
    }
}

/// Whether a text stands for itself: it is not empty and has no white space around it.
pub open spec fn tidy(text: Seq<char>) -> bool {
    text.len() > 0 && trimmed(text) == text
}

/// Whether an entry of the configuration is sound.
pub open spec fn sound_entry(keys: Seq<ApiKeyInfo>, i: int) -> bool {
    let k = keys[i];
    &&& tidy(k.key@) && tidy(k.tenant_id@) && trimmed(k.name@).len() > 0
    &&& forall|j: int| 0 <= j < i ==> (#[trigger] keys[j]).key@ != k.key@
    &&& k.allowed_agents matches Some(agents) ==> forall|a: int|
        0 <= a < agents@.len() ==> tidy((#[trigger] agents@[a])@)
}

proof fn lemma_agents_sound(idx: int, agents: Seq<String>, n: int)
    requires
        0 <= n <= agents.len(),
    ensures
        agent_issues(idx, agents, n).len() == 0 <==> forall|a: int|
            0 <= a < n ==> tidy((#[trigger] agents[a])@),
    decreases n,
{
    if n > 0 {
        lemma_agents_sound(idx, agents, n - 1);
        lemma_text_sound(idx, agents[n - 1]@, agent_label(n - 1));
    }
}

proof fn lemma_text_sound(idx: int, text: Seq<char>, label: Seq<char>)
    ensures
        text_issues(idx, text, label).len() == 0 <==> tidy(text),
{
    law_trimming_leaves_what_is_filled(text);
    if text.len() == 0 {
        assert(trimmed(text).len() == 0);
    }
}

proof fn lemma_entry_sound(keys: Seq<ApiKeyInfo>, i: int)
    requires
        0 <= i < keys.len(),
    ensures
        issues_at(keys, i).len() == 0 <==> sound_entry(keys, i),
{
    let k = keys[i];
    lemma_text_sound(i, k.key@, "key"@);
    lemma_text_sound(i, k.tenant_id@, "tenant_id"@);
    if k.allowed_agents is Some {
        lemma_agents_sound(i, k.allowed_agents->0@, k.allowed_agents->0@.len() as int);
    }
}

proof fn lemma_entries_sound(keys: Seq<ApiKeyInfo>, n: int)
    requires
        0 <= n <= keys.len(),
    ensures
        issues_before(keys, n).len() == 0 <==> forall|i: int|
            0 <= i < n ==> #[trigger] sound_entry(keys, i),
    decreases n,
{
    if n > 0 {
        lemma_entries_sound(keys, n - 1);
        lemma_entry_sound(keys, n - 1);
    }
}

/// A configuration of keys is accepted exactly when each entry has a key and a tenant without
/// white space around them, a name, no key of an earlier entry, and no blank agent.
pub proof fn law_sound_configurations_are_accepted(keys: Seq<ApiKeyInfo>)
    ensures
        key_issues(keys).len() == 0 <==> forall|i: int|
            0 <= i < keys.len() ==> #[trigger] sound_entry(keys, i),
{
    lemma_entries_sound(keys, keys.len() as int);
}

} // verus!
