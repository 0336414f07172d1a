//! From a principal's DID to the keys it controls.
//!
//! `did:key:z...` carries its key: a base58btc text of the multicodec prefix
//! `0xed 0x01` and the 32 bytes of an Ed25519 key. `did:web:host[:path]` names a
//! DID document on the web, whose `verificationMethod` entries hold the keys;
//! fetched key sets are kept for a while.

use vstd::prelude::*;

use crate::crypto::{
    base58_bytes, base58_decode, base58_encode, base58_text, base64url_bytes, base64url_decode,
    hex_encode, hex_text, key_defect, PublicKey,
};
use crate::numerals::{nat_text, nat_to_text};
use crate::table::Table;
use crate::text::{
    after_prefix, chars_of, eq_ignore_ascii_case, eq_ignoring_case, has_prefix, join2, join3,
    join4, law_parts_are_split_one_by_one, opt_str_eq, opt_text, split, split_all, str_eq,
    strip_prefix, views,
};
use crate::time::{Span, Timestamp};

verus! {

// ---------------------------------------------------------------------------
// Errors and keys
// ---------------------------------------------------------------------------

/// Why a DID could not be resolved.
#[derive(Debug)]
#[allow(inconsistent_fields)]
pub enum ResolveError {
    UnsupportedMethod(String),
    MalformedDid(String),
    KeyExtraction(String),
    Network { url: String, message: String },
    DidDocument { url: String, message: String },
    Blocked { url: String, message: String },
}

/// The model of a [`ResolveError`].
#[allow(inconsistent_fields)]
pub enum ResolveErrorView {
    UnsupportedMethod(Seq<char>),
    MalformedDid(Seq<char>),
    KeyExtraction(Seq<char>),
    Network { url: Seq<char>, message: Seq<char> },
    DidDocument { url: Seq<char>, message: Seq<char> },
    Blocked { url: Seq<char>, message: Seq<char> },
}

impl View for ResolveError {
    type V = ResolveErrorView;

    open spec fn view(&self) -> ResolveErrorView {
        match self {
            ResolveError::UnsupportedMethod(m) => ResolveErrorView::UnsupportedMethod(m@),
            ResolveError::MalformedDid(m) => ResolveErrorView::MalformedDid(m@),
            ResolveError::KeyExtraction(m) => ResolveErrorView::KeyExtraction(m@),
            ResolveError::Network { url, message } => ResolveErrorView::Network {
                url: url@,
                message: message@,
            },
            ResolveError::DidDocument { url, message } => ResolveErrorView::DidDocument {
                url: url@,
                message: message@,
            },
            ResolveError::Blocked { url, message } => ResolveErrorView::Blocked {
                url: url@,
                message: message@,
            },
        }
    }
}

impl ResolveErrorView {
    /// The one-line description.
    pub open spec fn text(self) -> Seq<char> {
        match self {
            ResolveErrorView::UnsupportedMethod(m) => "unsupported DID method: `"@ + m + "`"@,
            ResolveErrorView::MalformedDid(m) => "malformed DID: "@ + m,
            ResolveErrorView::KeyExtraction(m) => "key extraction failed: "@ + m,
            ResolveErrorView::Network { url, message } => "network error fetching `"@ + url + "`: "@
                + message,
            ResolveErrorView::DidDocument { url, message } => "DID document at `"@ + url
                + "` malformed: "@ + message,
            ResolveErrorView::Blocked { url, message } => "refusing to resolve `"@ + url + "`: "@
                + message,
        }
    }
}

impl ResolveError {
    /// The one-line description.
    pub fn to_text(&self) -> (r: String)
        ensures
            r@ == self@.text(),
    {
        match self {
            ResolveError::UnsupportedMethod(m) => join3(
                "unsupported DID method: `",
                m.as_str(),
                "`",
            ),
            ResolveError::MalformedDid(m) => join2("malformed DID: ", m.as_str()),
            ResolveError::KeyExtraction(m) => join2("key extraction failed: ", m.as_str()),
            ResolveError::Network { url, message } => join4(
                "network error fetching `",
                url.as_str(),
                "`: ",
                message.as_str(),
            ),
            ResolveError::DidDocument { url, message } => join4(
                "DID document at `",
                url.as_str(),
                "` malformed: ",
                message.as_str(),
            ),
            ResolveError::Blocked { url, message } => join4(
                "refusing to resolve `",
                url.as_str(),
                "`: ",
                message.as_str(),
            ),
        }
    }
}

/// A key that a principal advertises.
#[derive(Debug)]
pub struct VerifyingKeyEntry {
    /// The key id: the DID itself for `did:key`, the id of the verification
    /// method for `did:web`.
    pub kid: Option<String>,
    /// Algorithm name as in a JWS header.
    pub alg: &'static str,
    pub key: PublicKey,
}

/// The model of a [`VerifyingKeyEntry`].
pub struct KeyView {
    pub kid: Option<Seq<char>>,
    pub alg: Seq<char>,
    pub key: Seq<u8>,
}

impl View for VerifyingKeyEntry {
    type V = KeyView;

    open spec fn view(&self) -> KeyView {
        KeyView { kid: opt_text(self.kid), alg: self.alg@, key: self.key@ }
    }
}

/// The models of a list of keys.
pub open spec fn key_views(keys: Seq<VerifyingKeyEntry>) -> Seq<KeyView> {
    keys.map_values(|k: VerifyingKeyEntry| k@)
}

fn copy_keys(keys: &Vec<VerifyingKeyEntry>) -> (r: Vec<VerifyingKeyEntry>)
    ensures
        key_views(r@) == key_views(keys@),
{
    let mut out: Vec<VerifyingKeyEntry> = Vec::new();
    let mut i: usize = 0;
    while i < keys.len()
        invariant
            i <= keys@.len(),
            out@.len() == i,
            forall|j: int| 0 <= j < i ==> (#[trigger] out@[j])@ == keys@[j]@,
        decreases keys@.len() - i,
    {
        let k = &keys[i];
        out.push(VerifyingKeyEntry { kid: k.kid.clone(), alg: k.alg, key: k.key.copy() });
        i += 1;
    }
    assert(key_views(out@) =~= key_views(keys@));
    out
}

// ---------------------------------------------------------------------------
// did:key
// ---------------------------------------------------------------------------

/// The key in the fingerprint of a `did:key`, or what is wrong with it.
pub open spec fn fingerprint_key(fingerprint: Seq<char>) -> Result<Seq<u8>, ResolveErrorView> {
    match after_prefix(fingerprint, "z"@) {
        None => Err(ResolveErrorView::MalformedDid("expected multibase `z` prefix"@)),
        Some(rest) => match base58_bytes(rest) {
            Err(m) => Err(ResolveErrorView::MalformedDid("base58btc: "@ + m)),
            Ok(bytes) => if bytes.len() != 34 {
                Err(
                    ResolveErrorView::MalformedDid(
                        "expected 34 bytes (2 multicodec + 32 key), got "@ + nat_text(bytes.len()),
                    ),
                )
            } else if bytes[0] != 0xed || bytes[1] != 0x01 {
                Err(
                    ResolveErrorView::UnsupportedMethod(
                        "only Ed25519 (multicodec 0xed 0x01) supported in did:key, got 0x"@
                            + hex_text(bytes.subrange(0, 1)) + " 0x"@ + hex_text(
                            bytes.subrange(1, 2),
                        ),
                    ),
                )
            } else {
                match key_defect(bytes.subrange(2, 34)) {
                    Some(m) => Err(ResolveErrorView::KeyExtraction("ed25519-dalek: "@ + m)),
                    None => Ok(bytes.subrange(2, 34)),
                }
            },
        },
    }
}

fn slice_of(bytes: &Vec<u8>, from: usize, to: usize) -> (r: Vec<u8>)
    requires
        from <= to <= bytes@.len(),
    ensures
        r@ == bytes@.subrange(from as int, to as int),
{
    let mut out: Vec<u8> = Vec::new();
    let mut i: usize = from;
    while i < to
        invariant
            from <= i <= to <= bytes@.len(),
            out@ =~= bytes@.subrange(from as int, i as int),
        decreases to - i,
    {
        out.push(bytes[i]);
        i += 1;
    }
    out
}

/// The Ed25519 key in the fingerprint of a `did:key`.
pub fn decode_did_key(fingerprint: &str) -> (r: Result<PublicKey, ResolveError>)
    ensures
        match r {
            Ok(k) => fingerprint_key(fingerprint@) == Ok::<Seq<u8>, ResolveErrorView>(k@),
            Err(e) => fingerprint_key(fingerprint@) == Err::<Seq<u8>, ResolveErrorView>(e@),
        },
{
    let rest = match strip_prefix(fingerprint, "z") {
        Some(rest) => rest,
        None => {
            return Err(
                ResolveError::MalformedDid(String::from_str("expected multibase `z` prefix")),
            );
        },
    };
    let bytes = match base58_decode(rest) {
        Ok(bytes) => bytes,
        Err(m) => {
            return Err(ResolveError::MalformedDid(join2("base58btc: ", m.as_str())));
        },
    };
    if bytes.len() != 34 {
        let n = nat_to_text(bytes.len() as u128);
        return Err(
            ResolveError::MalformedDid(
                join2("expected 34 bytes (2 multicodec + 32 key), got ", n.as_str()),
            ),
        );
    }
    if bytes[0] != 0xed || bytes[1] != 0x01 {
        let first = slice_of(&bytes, 0, 1);
        let second = slice_of(&bytes, 1, 2);
        let a = hex_encode(first.as_slice());
        let b = hex_encode(second.as_slice());
        return Err(
            ResolveError::UnsupportedMethod(
                join4(
                    "only Ed25519 (multicodec 0xed 0x01) supported in did:key, got 0x",
                    a.as_str(),
                    " 0x",
                    b.as_str(),
                ),
            ),
        );
    }
    match PublicKey::from_bytes(slice_of(&bytes, 2, 34)) {
        Ok(k) => Ok(k),
        Err(m) => Err(ResolveError::KeyExtraction(join2("ed25519-dalek: ", m.as_str()))),
    }
}

/// The bytes that a `did:key` of this key encodes.
pub open spec fn multicodec_bytes(key: Seq<u8>) -> Seq<u8> {
    seq![0xedu8, 0x01u8] + key
}

/// The `publicKeyMultibase` form of a key.
pub open spec fn multibase_text(key: Seq<u8>) -> Seq<char> {
    "z"@ + base58_text(multicodec_bytes(key))
}

/// The `publicKeyMultibase` form of an Ed25519 key. Decoding it gives the key.
pub fn encode_multibase_key(key: &PublicKey) -> (r: String)
    ensures
        r@ == multibase_text(key@),
        fingerprint_key(r@) == Ok::<Seq<u8>, ResolveErrorView>(key@),
{
    let key_bytes = key.to_bytes();
    let mut body: Vec<u8> = Vec::new();
    body.push(0xed);
    body.push(0x01);
    let mut i: usize = 0;
    while i < key_bytes.len()
        invariant
            i <= key_bytes@.len(),
            body@ =~= seq![0xedu8, 0x01u8] + key_bytes@.take(i as int),
        decreases key_bytes@.len() - i,
    {
        body.push(key_bytes[i]);
        i += 1;
    }
    assert(key_bytes@.take(key_bytes@.len() as int) =~= key_bytes@);
    assert(body@ =~= multicodec_bytes(key@));
    let b58 = base58_encode(body.as_slice());
    let r = join2("z", b58.as_str());
    proof {
        reveal_strlit("z");
        assert(r@.take(1) =~= "z"@);
        assert(r@.skip(1) =~= b58@);
        assert(after_prefix(r@, "z"@) == Some(b58@));
        assert(body@.subrange(2, 34) =~= key@);
    }
    r
}

/// The `did:key` of an Ed25519 key. Resolving it gives the key.
pub fn encode_did_key(key: &PublicKey) -> (r: String)
    ensures
        r@ == "did:key:"@ + multibase_text(key@),
        did_key_result(r@) == Ok::<Seq<KeyView>, ResolveErrorView>(
            seq![KeyView { kid: Some(r@), alg: "EdDSA"@, key: key@ }],
        ),
{
    let mb = encode_multibase_key(key);
    let r = join2("did:key:", mb.as_str());
    proof {
        assert(r@.take("did:key:"@.len() as int) =~= "did:key:"@);
        assert(r@.skip("did:key:"@.len() as int) =~= mb@);
        assert(after_prefix(r@, "did:key:"@) == Some(mb@));
    }
    r
}

/// What resolving a `did:key` gives.
pub open spec fn did_key_result(did: Seq<char>) -> Result<Seq<KeyView>, ResolveErrorView> {
    match after_prefix(did, "did:key:"@) {
        None => Err(ResolveErrorView::UnsupportedMethod(did)),
        Some(fingerprint) => match fingerprint_key(fingerprint) {
            Err(e) => Err(e),
            Ok(key) => Ok(seq![KeyView { kid: Some(did), alg: "EdDSA"@, key }]),
        },
    }
}

/// Resolves `did:key:z...` by decoding the key in it.
pub struct DidKeyResolver;

impl DidKeyResolver {
    /// The one key of a `did:key`, with the DID as its id.
    pub fn resolve(&self, did: &str) -> (r: Result<Vec<VerifyingKeyEntry>, ResolveError>)
        ensures
            match r {
                Ok(keys) => did_key_result(did@) == Ok::<Seq<KeyView>, ResolveErrorView>(
                    key_views(keys@),
                ),
                Err(e) => did_key_result(did@) == Err::<Seq<KeyView>, ResolveErrorView>(e@),
            },
    {
        let fingerprint = match strip_prefix(did, "did:key:") {
            Some(f) => f,
            None => {
                return Err(ResolveError::UnsupportedMethod(String::from_str(did)));
            },
        };
        match decode_did_key(fingerprint) {
            Ok(key) => {
                let entry = VerifyingKeyEntry {
                    kid: Some(String::from_str(did)),
                    alg: "EdDSA",
                    key,
                };
                let keys = vec![entry];
                assert(key_views(keys@) =~= seq![entry@]);
                Ok(keys)
            },
            Err(e) => Err(e),
        }
    }
}

// ---------------------------------------------------------------------------
// did:web
// ---------------------------------------------------------------------------

/// The text with every `%3A` read as a colon.
pub open spec fn ports_decoded(s: Seq<char>) -> Seq<char>
    decreases s.len(),
{
    if s.len() == 0 {
        Seq::empty()
    } else if s.len() >= 3 && s[0] == '%' && s[1] == '3' && s[2] == 'A' {
        seq![':'] + ports_decoded(s.skip(3))
    } else {
        seq![s[0]] + ports_decoded(s.skip(1))
    }
}

fn decode_ports(s: &str) -> (r: String)
    ensures
        r@ == ports_decoded(s@),
{
    let cs = chars_of(s);
    let mut out = String::new();
    let mut i: usize = 0;
    assert(cs@.skip(0) =~= cs@);
    assert(out@ + ports_decoded(cs@) =~= ports_decoded(cs@));
    while i < cs.len()
        invariant
            i <= cs@.len(),
            cs@ == s@,
            out@ + ports_decoded(cs@.skip(i as int)) == ports_decoded(s@),
        decreases cs@.len() - i,
    {
        let ghost rest = cs@.skip(i as int);
        if cs.len() - i >= 3 && cs[i] == '%' && cs[i + 1] == '3' && cs[i + 2] == 'A' {
            assert(rest.skip(3) =~= cs@.skip(i as int + 3));
            assert(out@ + (seq![':'] + ports_decoded(rest.skip(3))) =~= out@.push(':')
                + ports_decoded(cs@.skip(i as int + 3)));
            out.push(':');
            i += 3;
        } else {
            assert(rest.skip(1) =~= cs@.skip(i as int + 1));
            assert(out@ + (seq![rest[0]] + ports_decoded(rest.skip(1))) =~= out@.push(
                cs@[i as int],
            ) + ports_decoded(cs@.skip(i as int + 1)));
            out.push(cs[i]);
            i += 1;
        }
    }
    assert(ports_decoded(cs@.skip(i as int)) =~= Seq::<char>::empty());
    assert(out@ =~= out@ + Seq::<char>::empty());
    out
}

/// A slash before each of the parts from the second to the `n`-th.
pub open spec fn slashed(parts: Seq<Seq<char>>, n: int) -> Seq<char>
    decreases n,
{
    if n <= 1 {
        Seq::empty()
    } else {
        slashed(parts, n - 1) + "/"@ + parts[n - 1]
    }
}

/// The URL of the DID document of a `did:web`.
pub open spec fn web_url(scheme: Seq<char>, did: Seq<char>) -> Result<Seq<char>, ResolveErrorView> {
    match after_prefix(did, "did:web:"@) {
        None => Err(ResolveErrorView::UnsupportedMethod(did)),
        Some(body) => if body.len() == 0 {
            Err(ResolveErrorView::MalformedDid("did:web: empty body"@))
        } else {
            let parts = split_all(body, ':');
            let path = if parts.len() == 1 {
                "/.well-known/did.json"@
            } else {
                slashed(parts, parts.len() as int) + "/did.json"@
            };
            Ok(scheme + "://"@ + ports_decoded(parts[0]) + path)
        },
    }
}

/// A key set that was fetched, and when.
#[derive(Debug)]
struct CachedKeyset {
    fetched_at: Timestamp,
    keys: Vec<VerifyingKeyEntry>,
}

/// The model of a key set that was fetched.
pub struct CachedView {
    pub fetched_at: int,
    pub keys: Seq<KeyView>,
}

/// Resolves `did:web:host[:path]`, apart from the fetch itself.
#[derive(Debug)]
pub struct DidWebResolver {
    scheme: String,
    cache: Table<CachedKeyset>,
    cache_ttl_nanos: u128,
    allow_insecure: bool,
}

/// What to do next for a `did:web`.
#[derive(Debug)]
pub enum ResolveStep {
    /// The keys are known.
    Known(Vec<VerifyingKeyEntry>),
    /// The document at `url` is to be fetched; when `guarded`, only after the
    /// host was found to be public.
    Fetch { url: String, guarded: bool },
}

impl DidWebResolver {
    /// The scheme of the URLs.
    pub closed spec fn scheme(&self) -> Seq<char> {
        self.scheme@
    }

    /// How long a fetched key set is used, in nanoseconds.
    pub closed spec fn ttl(&self) -> int {
        self.cache_ttl_nanos as int
    }

    /// Whether hosts in private networks may be contacted.
    pub closed spec fn insecure(&self) -> bool {
        self.allow_insecure
    }

    /// The key sets that were fetched, by DID.
    pub closed spec fn fetched(&self) -> Map<Seq<char>, CachedView> {
        self.cache@.map_values(
            |c: CachedKeyset| CachedView { fetched_at: c.fetched_at@, keys: key_views(c.keys@) },
        )
    }

    /// Whether the key set of the DID is known and still to be used at `now`.
    pub open spec fn usable(&self, did: Seq<char>, now: int) -> bool {
        &&& self.ttl() > 0
        &&& self.ttl() <= crate::time::MAX_SPAN_NANOS
        &&& self.fetched().contains_key(did)
        &&& now - self.fetched()[did].fetched_at <= self.ttl()
    }

    /// A resolver over HTTPS that keeps key sets for ten minutes.
    pub fn new() -> (r: DidWebResolver)
        ensures
            r.scheme() == "https"@,
            r.ttl() == 600_000_000_000,
            !r.insecure(),
            r.fetched() == Map::<Seq<char>, CachedView>::empty(),
    {
        let r = DidWebResolver {
            scheme: String::from_str("https"),
            cache: Table::new(),
            cache_ttl_nanos: 600_000_000_000,
            allow_insecure: false,
        };
        assert(r.fetched() =~= Map::<Seq<char>, CachedView>::empty());
        r
    }

    /// A resolver with another scheme and another time to keep key sets. A
    /// scheme other than `https` is for development, so it also allows hosts in
    /// private networks.
    pub fn with_options(scheme: &str, cache_ttl_nanos: u128) -> (r: DidWebResolver)
        ensures
            r.scheme() == scheme@,
            r.ttl() == cache_ttl_nanos,
            r.insecure() == !eq_ignoring_case(scheme@, "https"@),
            r.fetched() == Map::<Seq<char>, CachedView>::empty(),
    {
        let r = DidWebResolver {
            scheme: String::from_str(scheme),
            cache: Table::new(),
            cache_ttl_nanos,
            allow_insecure: !eq_ignore_ascii_case(scheme, "https"),
        };
        assert(r.fetched() =~= Map::<Seq<char>, CachedView>::empty());
        r
    }

    /// The resolver with hosts in private networks allowed or not.
    pub fn allowing_insecure(self, allow: bool) -> (r: DidWebResolver)
        ensures
            r.insecure() == allow,
            r.scheme() == self.scheme(),
            r.ttl() == self.ttl(),
            r.fetched() == self.fetched(),
    {
        DidWebResolver {
            scheme: self.scheme,
            cache: self.cache,
            cache_ttl_nanos: self.cache_ttl_nanos,
            allow_insecure: allow,
        }
    }

    /// The URL of the DID document.
    pub fn url_for(&self, did: &str) -> (r: Result<String, ResolveError>)
        ensures
            match r {
                Ok(u) => web_url(self.scheme(), did@) == Ok::<Seq<char>, ResolveErrorView>(u@),
                Err(e) => web_url(self.scheme(), did@) == Err::<Seq<char>, ResolveErrorView>(e@),
            },
    {
        let body = match strip_prefix(did, "did:web:") {
            Some(b) => b,
            None => {
                return Err(ResolveError::UnsupportedMethod(String::from_str(did)));
            },
        };
        if body.is_empty() {
            return Err(ResolveError::MalformedDid(String::from_str("did:web: empty body")));
        }
        let parts = split(body, ':');
        let ghost all = views(parts@);
        assert(all.len() == parts@.len());
        assert(all[0] == parts@[0]@);
        let host = decode_ports(parts[0]);
        let path = if parts.len() == 1 {
            String::from_str("/.well-known/did.json")
        } else {
            let mut p = String::new();
            let mut i: usize = 1;
            while i < parts.len()
                invariant
                    1 <= i <= parts@.len(),
                    all == views(parts@),
                    p@ == slashed(all, i as int),
                decreases parts@.len() - i,
            {
                assert(all[i as int] == parts@[i as int]@);
                p.append("/");
                p.append(parts[i]);
                i += 1;
            }
            p.append("/did.json");
            p
        };
        Ok(join4(self.scheme.as_str(), "://", host.as_str(), path.as_str()))
    }

    /// The keys of the DID, when they were fetched recently.
    pub fn cached(&self, did: &str, now: Timestamp) -> (r: Option<Vec<VerifyingKeyEntry>>)
        ensures
            match r {
                Some(keys) => self.usable(did@, now@) && key_views(keys@)
                    == self.fetched()[did@].keys,
                None => !self.usable(did@, now@),
            },
    {
        if self.cache_ttl_nanos == 0 || self.cache_ttl_nanos
            > 9_223_372_036_854_775_807_000_000 {
            return None;
        }
        match self.cache.get(did) {
            Some(entry) => {
                let age = now.since(&entry.fetched_at);
                let ttl = Span::nanoseconds(self.cache_ttl_nanos as i128);
                if age.longer_than(ttl) {
                    None
                } else {
                    Some(copy_keys(&entry.keys))
                }
            },
            None => None,
        }
    }

    /// Keeps a key set that was fetched at `now`, unless nothing is kept.
    pub fn store(&mut self, did: &str, keys: &Vec<VerifyingKeyEntry>, now: Timestamp)
        ensures
            final(self).scheme() == old(self).scheme(),
            final(self).ttl() == old(self).ttl(),
            final(self).insecure() == old(self).insecure(),
            final(self).fetched() == (if old(self).ttl() == 0 {
                old(self).fetched()
            } else {
                old(self).fetched().insert(
                    did@,
                    CachedView { fetched_at: now@, keys: key_views(keys@) },
                )
            }),
    {
        if self.cache_ttl_nanos == 0 {
            return ;
        }
        let kept = CachedKeyset { fetched_at: now, keys: copy_keys(keys) };
        self.cache.insert(String::from_str(did), kept);
        assert(self.fetched() =~= old(self).fetched().insert(
            did@,
            CachedView { fetched_at: now@, keys: key_views(keys@) },
        ));
    }

    /// What to do first for a DID: use the known keys, or fetch the document.
    pub fn begin(&self, did: &str, now: Timestamp) -> (r: Result<ResolveStep, ResolveError>)
        ensures
            match r {
                Ok(ResolveStep::Known(keys)) => self.usable(did@, now@) && key_views(keys@)
                    == self.fetched()[did@].keys,
                Ok(ResolveStep::Fetch { url, guarded }) => {
                    &&& !self.usable(did@, now@)
                    &&& web_url(self.scheme(), did@) == Ok::<Seq<char>, ResolveErrorView>(url@)
                    &&& guarded == !self.insecure()
                },
                Err(e) => !self.usable(did@, now@) && web_url(self.scheme(), did@) == Err::<
                    Seq<char>,
                    ResolveErrorView,
                >(e@),
            },
    {
        match self.cached(did, now) {
            Some(keys) => Ok(ResolveStep::Known(keys)),
            None => match self.url_for(did) {
                Ok(url) => Ok(ResolveStep::Fetch { url, guarded: !self.allow_insecure }),
                Err(e) => Err(e),
            },
        }
    }

    /// The keys in a document that was fetched at `now`. They are kept for
    /// later; a document without keys is an error.
    pub fn finish(&mut self, did: &str, url: &str, doc: &DidDocument, now: Timestamp) -> (r: Result<
        Vec<VerifyingKeyEntry>,
        ResolveError,
    >)
        ensures
            final(self).scheme() == old(self).scheme(),
            final(self).ttl() == old(self).ttl(),
            final(self).insecure() == old(self).insecure(),
            match r {
                Ok(keys) => {
                    &&& document_keys(*doc, did@, url@) == Ok::<Seq<KeyView>, ResolveErrorView>(
                        key_views(keys@),
                    )
                    &&& keys@.len() > 0
                    &&& final(self).fetched() == (if old(self).ttl() == 0 {
                        old(self).fetched()
                    } else {
                        old(self).fetched().insert(
                            did@,
                            CachedView { fetched_at: now@, keys: key_views(keys@) },
                        )
                    })
                },
                Err(e) => {
                    &&& final(self).fetched() == old(self).fetched()
                    &&& match document_keys(*doc, did@, url@) {
                        Err(x) => e@ == x,
                        Ok(keys) => keys.len() == 0 && e@ == (ResolveErrorView::DidDocument {
                            url: url@,
                            message: "DID document advertises no Ed25519 verification methods"@,
                        }),
                    }
                },
            },
    {
        let keys = match parse_verification_methods(doc, did, url) {
            Ok(keys) => keys,
            Err(e) => {
                return Err(e);
            },
        };
        assert(key_views(keys@).len() == keys@.len());
        if keys.len() == 0 {
            return Err(
                ResolveError::DidDocument {
                    url: String::from_str(url),
                    message: String::from_str(
                        "DID document advertises no Ed25519 verification methods",
                    ),
                },
            );
        }
        self.store(did, &keys, now);
        Ok(keys)
    }
}

impl Default for DidWebResolver {
    fn default() -> (r: Self)
        ensures
            r.scheme() == "https"@,
            r.ttl() == 600_000_000_000,
            !r.insecure(),
            r.fetched() == Map::<Seq<char>, CachedView>::empty(),
    {
        DidWebResolver::new()
    }
}

// ---------------------------------------------------------------------------
// DID documents
// ---------------------------------------------------------------------------

/// The part of a DID document that holds keys, under either spelling.
#[derive(Debug)]
pub struct DidDocument {
    pub verification_method: Vec<VerificationMethod>,
    pub verification_method_camel: Vec<VerificationMethod>,
}

/// One key of a DID document, with each member under either spelling.
#[derive(Debug)]
pub struct VerificationMethod {
    pub id: Option<String>,
    pub type_: Option<String>,
    pub public_key_multibase: Option<String>,
    pub public_key_multibase_camel: Option<String>,
    pub public_key_jwk: Option<Jwk>,
    pub public_key_jwk_camel: Option<Jwk>,
}

/// A key as a JSON Web Key.
#[derive(Debug)]
pub struct Jwk {
    pub kty: Option<String>,
    pub crv: Option<String>,
    pub x: Option<String>,
}

/// The first of two that is present.
pub open spec fn either<T>(a: Option<T>, b: Option<T>) -> Option<T> {
    if a is Some {
        a
    } else {
        b
    }
}

/// An error of the document at `url`.
pub open spec fn document_error(url: Seq<char>, message: Seq<char>) -> ResolveErrorView {
    ResolveErrorView::DidDocument { url, message }
}

/// The key of a JSON Web Key, if it is an Ed25519 one.
pub open spec fn jwk_key(jwk: Jwk, url: Seq<char>) -> Result<Option<Seq<u8>>, ResolveErrorView> {
    if opt_text(jwk.kty) != Some("OKP"@) || opt_text(jwk.crv) != Some("Ed25519"@) || jwk.x is None {
        Ok(None)
    } else {
        match base64url_bytes(jwk.x->0@) {
            Err(m) => Err(document_error(url, "publicKeyJwk.x not base64url: "@ + m)),
            Ok(bytes) => if bytes.len() != 32 {
                Err(document_error(url, "publicKeyJwk.x is not 32 bytes (Ed25519)"@))
            } else {
                match key_defect(bytes) {
                    Some(m) => Err(
                        document_error(url, "publicKeyJwk.x not a valid Ed25519 point: "@ + m),
                    ),
                    None => Ok(Some(bytes)),
                }
            },
        }
    }
}

/// The key of a verification method, if it has one; the multibase form comes
/// first.
pub open spec fn method_key(vm: VerificationMethod, url: Seq<char>) -> Result<
    Option<Seq<u8>>,
    ResolveErrorView,
> {
    match either(vm.public_key_multibase, vm.public_key_multibase_camel) {
        Some(mb) => match fingerprint_key(mb@) {
            Ok(k) => Ok(Some(k)),
            Err(_) => Ok(None),
        },
        None => match either(vm.public_key_jwk, vm.public_key_jwk_camel) {
            Some(jwk) => jwk_key(jwk, url),
            None => Ok(None),
        },
    }
}

/// Whether the type of a verification method is absent or one for Ed25519.
pub open spec fn known_type(t: Option<Seq<char>>) -> bool {
    t matches Some(s) ==> (s == "Ed25519VerificationKey2020"@ || s == "Ed25519VerificationKey2018"@
        || s == "JsonWebKey2020"@ || s == "Multikey"@)
}

/// The keys of the first `n` verification methods, or the first error.
pub open spec fn method_keys(
    methods: Seq<VerificationMethod>,
    n: int,
    did: Seq<char>,
    url: Seq<char>,
) -> Result<Seq<KeyView>, ResolveErrorView>
    decreases n,
{
    if n <= 0 {
        Ok(Seq::empty())
    } else {
        match method_keys(methods, n - 1, did, url) {
            Err(e) => Err(e),
            Ok(keys) => match method_key(methods[n - 1], url) {
                Err(e) => Err(e),
                Ok(None) => Ok(keys),
                Ok(Some(key)) => if known_type(opt_text(methods[n - 1].type_)) {
                    Ok(
                        keys.push(
                            KeyView {
                                kid: either(opt_text(methods[n - 1].id), Some(did)),
                                alg: "EdDSA"@,
                                key,
                            },
                        ),
                    )
                } else {
                    Ok(keys)
                },
            },
        }
    }
}

/// The keys of a document: those under the snake-case spelling first.
pub open spec fn document_keys(doc: DidDocument, did: Seq<char>, url: Seq<char>) -> Result<
    Seq<KeyView>,
    ResolveErrorView,
> {
    let all = doc.verification_method@ + doc.verification_method_camel@;
    method_keys(all, all.len() as int, did, url)
}

fn read_jwk(jwk: &Jwk, url: &str) -> (r: Result<Option<PublicKey>, ResolveError>)
    ensures
        match r {
            Ok(Some(k)) => jwk_key(*jwk, url@) == Ok::<Option<Seq<u8>>, ResolveErrorView>(
                Some(k@),
            ),
            Ok(None) => jwk_key(*jwk, url@) == Ok::<Option<Seq<u8>>, ResolveErrorView>(None),
            Err(e) => jwk_key(*jwk, url@) == Err::<Option<Seq<u8>>, ResolveErrorView>(e@),
        },
{
    if !opt_str_eq(&jwk.kty, "OKP") || !opt_str_eq(&jwk.crv, "Ed25519") {
        return Ok(None);
    }
    let x = match &jwk.x {
        Some(x) => x,
        None => {
            return Ok(None);
        },
    };
    let bytes = match base64url_decode(x.as_str()) {
        Ok(bytes) => bytes,
        Err(m) => {
            return Err(
                ResolveError::DidDocument {
                    url: String::from_str(url),
                    message: join2("publicKeyJwk.x not base64url: ", m.as_str()),
                },
            );
        },
    };
    if bytes.len() != 32 {
        return Err(
            ResolveError::DidDocument {
                url: String::from_str(url),
                message: String::from_str("publicKeyJwk.x is not 32 bytes (Ed25519)"),
            },
        );
    }
    match PublicKey::from_bytes(bytes) {
        Ok(k) => Ok(Some(k)),
        Err(m) => Err(
            ResolveError::DidDocument {
                url: String::from_str(url),
                message: join2("publicKeyJwk.x not a valid Ed25519 point: ", m.as_str()),
            },
        ),
    }
}

fn read_method(vm: &VerificationMethod, url: &str) -> (r: Result<Option<PublicKey>, ResolveError>)
    ensures
        match r {
            Ok(Some(k)) => method_key(*vm, url@) == Ok::<Option<Seq<u8>>, ResolveErrorView>(
                Some(k@),
            ),
            Ok(None) => method_key(*vm, url@) == Ok::<Option<Seq<u8>>, ResolveErrorView>(None),
            Err(e) => method_key(*vm, url@) == Err::<Option<Seq<u8>>, ResolveErrorView>(e@),
        },
{
    let multibase = match &vm.public_key_multibase {
        Some(mb) => Some(mb),
        None => match &vm.public_key_multibase_camel {
            Some(mb) => Some(mb),
            None => None,
        },
    };
    match multibase {
        Some(mb) => match decode_did_key(mb.as_str()) {
            Ok(k) => Ok(Some(k)),
            Err(_) => Ok(None),
        },
        None => match &vm.public_key_jwk {
            Some(jwk) => read_jwk(jwk, url),
            None => match &vm.public_key_jwk_camel {
                Some(jwk) => read_jwk(jwk, url),
                None => Ok(None),
            },
        },
    }
}

fn is_known_type(t: &Option<String>) -> (r: bool)
    ensures
        r == known_type(opt_text(*t)),
{
    match t {
        Some(s) => {
            let s = s.as_str();
            str_eq(s, "Ed25519VerificationKey2020") || str_eq(s, "Ed25519VerificationKey2018")
                || str_eq(s, "JsonWebKey2020") || str_eq(s, "Multikey")
        },
        None => true,
    }
}

/// The Ed25519 keys of a DID document. A multibase key that cannot be read is
/// passed over; a JSON Web Key that claims to be Ed25519 and is not is an error.
pub fn parse_verification_methods(doc: &DidDocument, did: &str, url: &str) -> (r: Result<
    Vec<VerifyingKeyEntry>,
    ResolveError,
>)
    ensures
        match r {
            Ok(keys) => document_keys(*doc, did@, url@) == Ok::<Seq<KeyView>, ResolveErrorView>(
                key_views(keys@),
            ),
            Err(e) => document_keys(*doc, did@, url@) == Err::<Seq<KeyView>, ResolveErrorView>(e@),
        },
{
    let ghost all = doc.verification_method@ + doc.verification_method_camel@;
    let n: usize = doc.verification_method.len();
    let mut out: Vec<VerifyingKeyEntry> = Vec::new();
    let mut i: usize = 0;
    let mut j: usize = 0;
    assert(key_views(out@) =~= Seq::<KeyView>::empty());
    while i < n || j < doc.verification_method_camel.len()
        invariant
            n == doc.verification_method@.len(),
            i <= n,
            j <= doc.verification_method_camel@.len(),
            j > 0 ==> i == n,
            all == doc.verification_method@ + doc.verification_method_camel@,
            method_keys(all, i + j, did@, url@) == Ok::<Seq<KeyView>, ResolveErrorView>(
                key_views(out@),
            ),
        decreases n + doc.verification_method_camel@.len() - i - j,
    {
        let ghost at = i + j;
        let vm = if i < n {
            i += 1;
            &doc.verification_method[i - 1]
        } else {
            j += 1;
            &doc.verification_method_camel[j - 1]
        };
        assert(*vm == all[at]);
        match read_method(vm, url) {
            Err(e) => {
                proof {
                    lemma_first_error(all, at + 1, all.len() as int, did@, url@);
                }
                return Err(e);
            },
            Ok(None) => {},
            Ok(Some(key)) => {
                if is_known_type(&vm.type_) {
                    let kid = match &vm.id {
                        Some(id) => id.clone(),
                        None => String::from_str(did),
                    };
                    let ghost before = out@;
                    let entry = VerifyingKeyEntry { kid: Some(kid), alg: "EdDSA", key };
                    out.push(entry);
                    assert(key_views(out@) =~= key_views(before).push(entry@));
                }
            },
        }
    }
    Ok(out)
}

proof fn lemma_first_error(
    methods: Seq<VerificationMethod>,
    n: int,
    m: int,
    did: Seq<char>,
    url: Seq<char>,
)
    requires
        0 <= n <= m,
        method_keys(methods, n, did, url) is Err,
    ensures
        method_keys(methods, m, did, url) == method_keys(methods, n, did, url),
    decreases m - n,
{
    if n < m {
        lemma_first_error(methods, n, m - 1, did, url);
    }
}

// ---------------------------------------------------------------------------
// Several resolvers
// ---------------------------------------------------------------------------

/// Several resolvers tried in turn: the first that finds keys answers. When none does,
/// the first error counts that is more than not knowing the method.
#[derive(Debug)]
pub struct CompositeResolver {
    last: Option<ResolveError>,
}

/// Which of two errors counts: the earlier one when it is more than not knowing the
/// method, and else the later one.
pub open spec fn telling(earlier: Option<ResolveErrorView>, later: ResolveErrorView) -> ResolveErrorView {
    match earlier {
        Some(e) => if e is UnsupportedMethod {
            later
        } else {
            e
        },
        None => later,
    }
}

impl CompositeResolver {
    /// The error that counts so far.
    pub closed spec fn passed_on(&self) -> Option<ResolveErrorView> {
        match self.last {
            Some(e) => Some(e@),
            None => None,
        }
    }

    /// Before any resolver was tried.
    pub fn new() -> (r: CompositeResolver)
        ensures
            r.passed_on() is None,
    {
        CompositeResolver { last: None }
    }

    /// Takes the answer of the next resolver. Gives the keys that it found, or
    /// nothing when the one after is to be tried.
    pub fn offer(&mut self, answer: Result<Vec<VerifyingKeyEntry>, ResolveError>) -> (r: Option<
        Vec<VerifyingKeyEntry>,
    >)
        ensures
            match answer {
                Ok(keys) => r == Some(keys) && final(self).passed_on() == old(self).passed_on(),
                Err(e) => r is None && final(self).passed_on() == Some(
                    telling(old(self).passed_on(), e@),
                ),
            },
    {
        let e = match answer {
            Ok(keys) => {
                return Some(keys);
            },
            Err(e) => e,
        };
        let told = match &self.last {
            Some(ResolveError::UnsupportedMethod(_)) => false,
            Some(_) => true,
            None => false,
        };
        if !told {
            self.last = Some(e);
        }
        None
    }

    /// The error when no resolver found keys.
    pub fn give_up(self, did: &str) -> (r: ResolveError)
        ensures
            r@ == (match self.passed_on() {
                Some(e) => e,
                None => ResolveErrorView::UnsupportedMethod(did@),
            }),
    {
        match self.last {
            Some(e) => e,
            None => ResolveError::UnsupportedMethod(String::from_str(did)),
        }
    }
}

// ---------------------------------------------------------------------------
// Laws
// ---------------------------------------------------------------------------

/// Every `did:key` resolves to at most one key, and that key has the DID as its
/// id.
pub proof fn law_did_key_has_one_key(did: Seq<char>)
    ensures
        did_key_result(did) matches Ok(keys) ==> keys.len() == 1 && keys[0].kid == Some(did)
            && keys[0].alg == "EdDSA"@,
{
}

/// No DID is both a `did:key` and a `did:web`: the resolver of the one method
/// passes every DID of the other on.
pub proof fn law_methods_are_disjoint(scheme: Seq<char>, did: Seq<char>)
    ensures
        has_prefix(did, "did:web:"@) ==> did_key_result(did) == Err::<
            Seq<KeyView>,
            ResolveErrorView,
        >(ResolveErrorView::UnsupportedMethod(did)),
        has_prefix(did, "did:key:"@) ==> web_url(scheme, did) == Err::<
            Seq<char>,
            ResolveErrorView,
        >(ResolveErrorView::UnsupportedMethod(did)),
{
    reveal_strlit("did:web:");
    reveal_strlit("did:key:");
    if has_prefix(did, "did:web:"@) && has_prefix(did, "did:key:"@) {
        assert(did.take(8)[4] == 'w');
        assert(did.take(8)[4] == 'k');
    }
}

/// The key of a fingerprint is what follows the two bytes that say Ed25519, and nothing else
/// is one: it must be 32 bytes long and a sound key.
pub proof fn law_fingerprints_hold_their_key(fingerprint: Seq<char>, key: Seq<u8>)
    ensures
        fingerprint_key("z"@ + fingerprint) == Ok::<Seq<u8>, ResolveErrorView>(key) <==> (
        base58_bytes(fingerprint) matches Ok(bytes) && key.len() == 32 && bytes =~= seq![
            0xedu8,
            0x01u8,
        ] + key && key_defect(key) is None),
        !has_prefix(fingerprint, "z"@) ==> fingerprint_key(fingerprint) is Err,
{
    reveal_strlit("z");
    let text = "z"@ + fingerprint;
    assert(text.take(1) =~= "z"@);
    assert(text.skip(1) =~= fingerprint);
    if base58_bytes(fingerprint) is Ok {
        let bytes = base58_bytes(fingerprint)->Ok_0;
        if bytes.len() == 34 && bytes[0] == 0xed && bytes[1] == 0x01 {
            assert(bytes =~= seq![0xedu8, 0x01u8] + bytes.subrange(2, 34));
        }
        if key.len() == 32 && bytes == seq![0xedu8, 0x01u8] + key {
            assert(bytes.subrange(2, 34) =~= key);
        }
    }
}

/// A `did:key` holds its key itself: the one of its fingerprint, under its own name.
pub proof fn law_did_keys_are_their_own_document(fingerprint: Seq<char>)
    ensures
        ({
            let did = "did:key:"@ + fingerprint;
            match fingerprint_key(fingerprint) {
                Ok(key) => did_key_result(did) == Ok::<Seq<KeyView>, ResolveErrorView>(
                    seq![KeyView { kid: Some(did), alg: "EdDSA"@, key }],
                ),
                Err(e) => did_key_result(did) == Err::<Seq<KeyView>, ResolveErrorView>(e),
            }
        }),
{
    let did = "did:key:"@ + fingerprint;
    assert(did.take("did:key:"@.len() as int) =~= "did:key:"@);
    assert(did.skip("did:key:"@.len() as int) =~= fingerprint);
}

/// A port in a host is written with `%3A` for its colon, and nothing else is changed.
pub proof fn law_ports_are_decoded(before: Seq<char>, after: Seq<char>)
    requires
        !before.contains('%'),
    ensures
        ports_decoded(before) == before,
        ports_decoded(before + "%3A"@ + after) == before + ":"@ + ports_decoded(after),
    decreases before.len(),
{
    reveal_strlit("%3A");
    reveal_strlit(":");
    let s = before + "%3A"@ + after;
    if before.len() == 0 {
        assert(s.skip(3) =~= after);
        assert(seq![':'] + ports_decoded(after) =~= before + ":"@ + ports_decoded(after));
        assert(ports_decoded(before) =~= before);
    } else {
        let rest = before.skip(1);
        assert(!rest.contains('%')) by {
            if rest.contains('%') {
                let i = choose|i: int| 0 <= i < rest.len() && rest[i] == '%';
                assert(before[i + 1] == '%');
            }
        }
        law_ports_are_decoded(rest, after);
        assert(before.contains(before[0]));
        assert(s[0] == before[0]);
        assert(s.skip(1) =~= rest + "%3A"@ + after);
        assert(seq![before[0]] + (rest + ":"@ + ports_decoded(after)) =~= before + ":"@
            + ports_decoded(after));
        assert(seq![before[0]] + rest =~= before);
    }
}

/// A `did:web` of a host alone is found at its well-known place; with a path, each further
/// part of the name is one more directory before the document.
pub proof fn law_web_documents_follow_the_name(
    scheme: Seq<char>,
    host: Seq<char>,
    part: Seq<char>,
    path: Seq<char>,
)
    requires
        host.len() > 0,
        !host.contains(':'),
        !part.contains(':'),
    ensures
        web_url(scheme, "did:web:"@ + host) == Ok::<Seq<char>, ResolveErrorView>(
            scheme + "://"@ + ports_decoded(host) + "/.well-known/did.json"@,
        ),
        web_url(scheme, "did:web:"@ + (host + seq![':'] + part)) == Ok::<
            Seq<char>,
            ResolveErrorView,
        >(scheme + "://"@ + ports_decoded(host) + ("/"@ + part + "/did.json"@)),
        ({
            let parts = split_all(host + seq![':'] + path, ':');
            let more = split_all(host + seq![':'] + path + seq![':'] + part, ':');
            &&& more == parts.push(part)
            &&& slashed(more, more.len() as int) == slashed(parts, parts.len() as int) + "/"@ + part
            &&& web_url(scheme, "did:web:"@ + (host + seq![':'] + path)) == Ok::<
                Seq<char>,
                ResolveErrorView,
            >(
                scheme + "://"@ + ports_decoded(host) + (slashed(parts, parts.len() as int)
                    + "/did.json"@),
            )
        }),
{
    let prefix = "did:web:"@;
    lemma_web_body(host);
    lemma_web_body(host + seq![':'] + part);
    lemma_web_body(host + seq![':'] + path);
    law_parts_are_split_one_by_one(host, ':', part);
    law_parts_are_split_one_by_one(host, ':', path);
    law_parts_are_split_one_by_one(part, ':', path);
    law_parts_are_split_one_by_one(path, ':', part);
    let two = split_all(host + seq![':'] + part, ':');
    assert(two =~= seq![host, part]);
    reveal_with_fuel(slashed, 3);
    assert(slashed(two, 2) =~= "/"@ + part);
    let parts = split_all(host + seq![':'] + path, ':');
    assert(parts[0] == host);
    law_parts_are_split_one_by_one(host + seq![':'] + path, ':', part);
    let more = split_all(host + seq![':'] + path + seq![':'] + part, ':');
    assert(more =~= parts.push(part));
    lemma_slashed_prefix(more, parts, parts.len() as int);
}

proof fn lemma_web_body(body: Seq<char>)
    ensures
        after_prefix("did:web:"@ + body, "did:web:"@) == Some(body),
{
    let did = "did:web:"@ + body;
    assert(did.take("did:web:"@.len() as int) =~= "did:web:"@);
    assert(did.skip("did:web:"@.len() as int) =~= body);
}

proof fn lemma_slashed_prefix(a: Seq<Seq<char>>, b: Seq<Seq<char>>, n: int)
    requires
        0 <= n <= b.len() <= a.len(),
        forall|i: int| 0 <= i < b.len() ==> a[i] == b[i],
    ensures
        slashed(a, n) == slashed(b, n),
    decreases n,
{
    if n > 1 {
        lemma_slashed_prefix(a, b, n - 1);
    }
}

/// A document gives the key of each of its methods, in order and under the id of the method,
/// or of the subject where it has none: a fingerprint that can be read, or else a key in the
/// form of a JWK for Ed25519. Methods of other types, other keys and fingerprints that cannot
/// be read give none.
pub proof fn law_documents_give_the_keys_of_their_methods(
    methods: Seq<VerificationMethod>,
    m: VerificationMethod,
    did: Seq<char>,
    url: Seq<char>,
    keys: Seq<KeyView>,
)
    requires
        method_keys(methods, methods.len() as int, did, url) == Ok::<
            Seq<KeyView>,
            ResolveErrorView,
        >(keys),
    ensures
        ({
            let all = method_keys(methods.push(m), methods.len() as int + 1, did, url);
            let multibase = if m.public_key_multibase is Some {
                m.public_key_multibase
            } else {
                m.public_key_multibase_camel
            };
            let jwk = if m.public_key_jwk is Some {
                m.public_key_jwk
            } else {
                m.public_key_jwk_camel
            };
            let kid = match m.id {
                Some(id) => Some(id@),
                None => Some(did),
            };
            let known = m.type_ is None || m.type_->0@ == "Ed25519VerificationKey2020"@
                || m.type_->0@ == "Ed25519VerificationKey2018"@ || m.type_->0@
                == "JsonWebKey2020"@ || m.type_->0@ == "Multikey"@;
            &&& multibase matches Some(mb) ==> match fingerprint_key(mb@) {
                Ok(key) => known ==> all == Ok::<Seq<KeyView>, ResolveErrorView>(
                    keys.push(KeyView { kid, alg: "EdDSA"@, key }),
                ),
                Err(_) => all == Ok::<Seq<KeyView>, ResolveErrorView>(keys),
            }
            &&& multibase is None && jwk is None ==> all == Ok::<Seq<KeyView>, ResolveErrorView>(
                keys,
            )
            &&& multibase is None ==> (jwk matches Some(j) ==> {
                let ed = opt_text(j.kty) == Some("OKP"@) && opt_text(j.crv) == Some("Ed25519"@)
                    && j.x is Some;
                &&& !ed ==> all == Ok::<Seq<KeyView>, ResolveErrorView>(keys)
                &&& ed ==> match base64url_bytes(j.x->0@) {
                    Ok(key) => if key.len() == 32 && key_defect(key) is None {
                        known ==> all == Ok::<Seq<KeyView>, ResolveErrorView>(
                            keys.push(KeyView { kid, alg: "EdDSA"@, key }),
                        )
                    } else {
                        all matches Err(e) && e is DidDocument
                    },
                    Err(_) => all matches Err(e) && e is DidDocument,
                }
            })
            &&& !known && all is Ok ==> all == Ok::<Seq<KeyView>, ResolveErrorView>(keys)
        }),
        method_keys(Seq::empty(), 0, did, url) == Ok::<Seq<KeyView>, ResolveErrorView>(
            Seq::empty(),
        ),
{
    let all = methods.push(m);
    lemma_method_prefix(methods, all, methods.len() as int, did, url);
    assert(all[methods.len() as int] == m);
}

proof fn lemma_method_prefix(
    a: Seq<VerificationMethod>,
    b: Seq<VerificationMethod>,
    n: int,
    did: Seq<char>,
    url: Seq<char>,
)
    requires
        0 <= n <= a.len() <= b.len(),
        forall|i: int| 0 <= i < a.len() ==> a[i] == b[i],
    ensures
        method_keys(a, n, did, url) == method_keys(b, n, did, url),
    decreases n,
{
    if n > 0 {
        lemma_method_prefix(a, b, n - 1, did, url);
    }
}

/// Where every resolver fails, the first failure that says more than that a method is not
/// supported is the one that is told.
pub proof fn law_the_most_telling_failure_is_kept(
    earlier: Option<ResolveErrorView>,
    later: ResolveErrorView,
)
    ensures
        earlier matches Some(e) ==> (!(e is UnsupportedMethod) ==> telling(earlier, later) == e),
        (earlier matches Some(e) ==> e is UnsupportedMethod) ==> telling(earlier, later) == later,
{
}

/// Keys that were fetched are used again exactly until they are as old as the resolver keeps
/// them, and never where it keeps none.
pub proof fn law_fetched_keys_are_kept_for_a_while(
    resolver: DidWebResolver,
    did: Seq<char>,
    now: int,
)
    requires
        resolver.ttl() <= crate::time::MAX_SPAN_NANOS,
    ensures
        resolver.ttl() <= 0 ==> !resolver.usable(did, now),
        resolver.ttl() > 0 ==> (resolver.usable(did, now) <==> resolver.fetched().contains_key(did) && now
            - resolver.fetched()[did].fetched_at <= resolver.ttl()),
{
}

} // verus!
