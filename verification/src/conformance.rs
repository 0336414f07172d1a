//! What a handler must show to conform to the protocol, judged from the outside:
//! by the status, the headers and the bodies of its responses.

use vstd::prelude::*;

use crate::crypto::{
    base64url_bytes, base64url_decode, base64url_text, hex_text, key_defect, sha256,
    signature_accepted, PublicKey,
};
use crate::json::{member_index, Json, JsonView, ObjectBuilder};
use crate::jws::{
    compact_text, dotless, jws_segments, law_segments_of_compact, segments, signing_input,
    signing_text, SegmentError,
};
use crate::numerals::{nat_text, nat_to_text};
use crate::signing::{
    digest_claim, jwk_document, readable_key, receipt_refusal, JwsHeader, ReceiptClaims,
};
use crate::text::{has_prefix, join2, join3, join4, join5, opt_view, starts_with, str_eq};
use vstd::utf8::encode_utf8;

verus! {

/// What is wrong with a response.
#[derive(Debug)]
pub enum Flaw {
    /// The complaint in full.
    Said(String),
    /// A member that is not there.
    Missing(&'static str),
    /// A member that is no string.
    NotText(&'static str),
    /// A transaction that is not in the state that it should be in after a step.
    WrongState(&'static str, &'static str),
}

/// The model of a [`Flaw`].
pub enum FlawView {
    Said(Seq<char>),
    Missing(Seq<char>),
    NotText(Seq<char>),
    WrongState(Seq<char>, Seq<char>),
}

impl View for Flaw {
    type V = FlawView;

    open spec fn view(&self) -> FlawView {
        match self {
            Flaw::Said(m) => FlawView::Said(m@),
            Flaw::Missing(k) => FlawView::Missing(k@),
            Flaw::NotText(k) => FlawView::NotText(k@),
            Flaw::WrongState(a, b) => FlawView::WrongState(a@, b@),
        }
    }
}

fn said(m: &str) -> (f: Flaw)
    ensures
        f@ == FlawView::Said(m@),
{
    Flaw::Said(String::from_str(m))
}

// ---------------------------------------------------------------------------
// Members
// ---------------------------------------------------------------------------

/// A member, and null when there is none.
pub open spec fn member_or_null(v: JsonView, key: Seq<char>) -> JsonView {
    match v.member(key) {
        Some(m) => m,
        None => JsonView::Null,
    }
}

/// Why a document has no text under this name.
pub open spec fn text_flaw(v: JsonView, key: Seq<char>) -> Option<FlawView> {
    match v.member(key) {
        None => Some(FlawView::Missing(key)),
        Some(m) => if m.text() is None {
            Some(FlawView::NotText(key))
        } else {
            None
        },
    }
}

/// The member under this name.
pub fn require_field<'a>(v: &'a Json, key: &'static str) -> (r: Result<&'a Json, Flaw>)
    ensures
        match r {
            Ok(m) => v@.member(key@) == Some(m@),
            Err(f) => v@.member(key@) is None && f@ == FlawView::Missing(key@),
        },
{
    match v.get(key) {
        Some(m) => Ok(m),
        None => Err(Flaw::Missing(key)),
    }
}

/// The text under this name.
pub fn require_str<'a>(v: &'a Json, key: &'static str) -> (r: Result<&'a str, Flaw>)
    ensures
        match r {
            Ok(t) => v@.text_member(key@) == Some(t@) && text_flaw(v@, key@) is None,
            Err(f) => text_flaw(v@, key@) == Some(f@),
        },
{
    match v.get(key) {
        Some(m) => match m.as_str() {
            Some(t) => Ok(t),
            None => Err(Flaw::NotText(key)),
        },
        None => Err(Flaw::Missing(key)),
    }
}

fn child(v: &Json, key: &str) -> (r: Json)
    ensures
        r@ == member_or_null(v@, key@),
{
    match v.get(key) {
        Some(m) => m.copy(),
        None => Json::Null,
    }
}

/// The first of two complaints.
pub open spec fn first(a: Option<FlawView>, b: Option<FlawView>) -> Option<FlawView> {
    if a is Some {
        a
    } else {
        b
    }
}

/// Whether the status says success.
pub open spec fn success(status: u16) -> bool {
    200 <= status < 300
}

/// The complaint about a status.
pub open spec fn status_flaw(prefix: Seq<char>, status: u16) -> Option<FlawView> {
    if success(status) {
        None
    } else {
        Some(FlawView::Said(prefix + nat_text(status as nat)))
    }
}

/// Refuses a status that does not say success.
pub fn require_success(prefix: &str, status: u16) -> (r: Result<(), Flaw>)
    ensures
        match r {
            Ok(()) => status_flaw(prefix@, status) is None,
            Err(f) => status_flaw(prefix@, status) == Some(f@),
        },
{
    if 200 <= status && status < 300 {
        Ok(())
    } else {
        let n = nat_to_text(status as u128);
        Err(Flaw::Said(join2(prefix, n.as_str())))
    }
}

// ---------------------------------------------------------------------------
// Discovery, keys and health
// ---------------------------------------------------------------------------

/// What is wrong with a discovery document.
pub open spec fn discovery_flaw(status: u16, version: Option<Seq<char>>, body: JsonView) -> Option<
    FlawView,
> {
    if !success(status) {
        status_flaw("status "@, status)
    } else if version is None {
        Some(FlawView::Said("response missing ICP-Version header"@))
    } else if text_flaw(body, "icp_version"@) is Some {
        text_flaw(body, "icp_version"@)
    } else {
        match body.member("intents"@) {
            None => Some(FlawView::Missing("intents"@)),
            Some(JsonView::Array(intents)) => if intents.len() == 0 {
                Some(FlawView::Said("discovery `intents` array is empty"@))
            } else if body.text_member("icp_version"@) != version {
                Some(
                    FlawView::Said(
                        "discovery body.icp_version `\""@ + body.text_member("icp_version"@)->0
                            + "\"` != ICP-Version header `"@ + version->0 + "`"@,
                    ),
                )
            } else {
                match body.member("signing_keys"@) {
                    Some(JsonView::Array(keys)) => if keys.len() == 0 {
                        Some(FlawView::Said("signing_keys array is empty"@))
                    } else {
                        None
                    },
                    _ => Some(FlawView::Said("missing signing_keys array"@)),
                }
            },
            Some(_) => Some(FlawView::Said("`intents` not array"@)),
        }
    }
}

/// Judges a discovery document: it names its version, which the header repeats,
/// its intents and its keys.
pub fn check_discovery(status: u16, version: Option<&str>, body: &Json) -> (r: Result<(), Flaw>)
    ensures
        match r {
            Ok(()) => discovery_flaw(status, opt_view(version), body@) is None,
            Err(f) => discovery_flaw(status, opt_view(version), body@) == Some(f@),
        },
{
    match require_success("status ", status) {
        Ok(()) => {},
        Err(f) => {
            return Err(f);
        },
    }
    let version = match version {
        Some(v) => v,
        None => {
            return Err(said("response missing ICP-Version header"));
        },
    };
    let told = match require_str(body, "icp_version") {
        Ok(t) => t,
        Err(f) => {
            return Err(f);
        },
    };
    let intents = match require_field(body, "intents") {
        Ok(m) => match m.as_array() {
            Some(v) => v,
            None => {
                return Err(said("`intents` not array"));
            },
        },
        Err(f) => {
            return Err(f);
        },
    };
    if intents.len() == 0 {
        return Err(said("discovery `intents` array is empty"));
    }
    if !str_eq(told, version) {
        return Err(
            Flaw::Said(
                join5(
                    "discovery body.icp_version `\"",
                    told,
                    "\"` != ICP-Version header `",
                    version,
                    "`",
                ),
            ),
        );
    }
    let keys = match body.get("signing_keys") {
        Some(m) => m.as_array(),
        None => None,
    };
    match keys {
        Some(v) => if v.len() == 0 {
            Err(said("signing_keys array is empty"))
        } else {
            Ok(())
        },
        None => Err(said("missing signing_keys array")),
    }
}

/// What is wrong with the key at position `i`.
pub open spec fn jwk_flaw(key: JsonView, i: int) -> Option<FlawView> {
    if text_flaw(key, "alg"@) is Some {
        text_flaw(key, "alg"@)
    } else if key.text_member("alg"@) != Some("EdDSA"@) {
        Some(
            FlawView::Said(
                "keys["@ + nat_text(i as nat) + "].alg = "@ + key.text_member("alg"@)->0
                    + " (expected EdDSA)"@,
            ),
        )
    } else if text_flaw(key, "kid"@) is Some {
        text_flaw(key, "kid"@)
    } else if text_flaw(key, "x"@) is Some {
        text_flaw(key, "x"@)
    } else {
        match base64url_bytes(key.text_member("x"@)->0) {
            Err(m) => Some(FlawView::Said(m)),
            Ok(b) => if b.len() == 32 {
                None
            } else {
                Some(
                    FlawView::Said(
                        "keys["@ + nat_text(i as nat) + "].x does not decode to 32 bytes"@,
                    ),
                )
            },
        }
    }
}

/// What is wrong with the keys, from position `i` on.
pub open spec fn jwk_flaws(keys: Seq<JsonView>, i: int) -> Option<FlawView>
    decreases keys.len() - i,
{
    if i < 0 || i >= keys.len() {
        None
    } else if jwk_flaw(keys[i], i) is Some {
        jwk_flaw(keys[i], i)
    } else {
        jwk_flaws(keys, i + 1)
    }
}

/// What is wrong with a key set.
pub open spec fn jwks_flaw(status: u16, body: JsonView) -> Option<FlawView> {
    if !success(status) {
        status_flaw("status "@, status)
    } else {
        match body.member("keys"@) {
            Some(JsonView::Array(keys)) => if keys.len() == 0 {
                Some(FlawView::Said("jwks `keys` array empty"@))
            } else {
                jwk_flaws(keys, 0)
            },
            _ => Some(FlawView::Said("jwks missing `keys` array"@)),
        }
    }
}

fn check_jwk(key: &Json, i: usize) -> (r: Result<(), Flaw>)
    ensures
        match r {
            Ok(()) => jwk_flaw(key@, i as int) is None,
            Err(f) => jwk_flaw(key@, i as int) == Some(f@),
        },
{
    let alg = match require_str(key, "alg") {
        Ok(t) => t,
        Err(f) => {
            return Err(f);
        },
    };
    if !str_eq(alg, "EdDSA") {
        let n = nat_to_text(i as u128);
        return Err(
            Flaw::Said(join5("keys[", n.as_str(), "].alg = ", alg, " (expected EdDSA)")),
        );
    }
    match require_str(key, "kid") {
        Ok(_) => {},
        Err(f) => {
            return Err(f);
        },
    }
    let x = match require_str(key, "x") {
        Ok(t) => t,
        Err(f) => {
            return Err(f);
        },
    };
    match base64url_decode(x) {
        Err(m) => Err(Flaw::Said(m)),
        Ok(b) => if b.len() == 32 {
            Ok(())
        } else {
            let n = nat_to_text(i as u128);
            Err(Flaw::Said(join3("keys[", n.as_str(), "].x does not decode to 32 bytes")))
        },
    }
}

/// Judges a key set: at least one Ed25519 key, and every key well-formed.
pub fn check_jwks(status: u16, body: &Json) -> (r: Result<(), Flaw>)
    ensures
        match r {
            Ok(()) => jwks_flaw(status, body@) is None,
            Err(f) => jwks_flaw(status, body@) == Some(f@),
        },
{
    match require_success("status ", status) {
        Ok(()) => {},
        Err(f) => {
            return Err(f);
        },
    }
    let found = match body.get("keys") {
        Some(m) => m.as_array(),
        None => None,
    };
    let keys = match found {
        Some(v) => v,
        None => {
            return Err(said("jwks missing `keys` array"));
        },
    };
    if keys.len() == 0 {
        return Err(said("jwks `keys` array empty"));
    }
    let ghost all = body@.member("keys"@)->0->Array_0;
    let mut i: usize = 0;
    while i < keys.len()
        invariant
            i <= keys@.len() == all.len(),
            forall|j: int| 0 <= j < all.len() ==> #[trigger] all[j] == keys@[j]@,
            jwk_flaws(all, 0) == jwk_flaws(all, i as int),
            jwks_flaw(status, body@) == jwk_flaws(all, 0),
        ensures
            jwk_flaws(all, 0) is None,
        decreases keys@.len() - i,
    {
        assert(all[i as int] == keys@[i as int]@);
        match check_jwk(&keys[i], i) {
            Ok(()) => {},
            Err(f) => {
                return Err(f);
            },
        }
        i += 1;
    }
    Ok(())
}

/// What is wrong with a health report.
pub open spec fn health_flaw(status: u16, body: JsonView) -> Option<FlawView> {
    if !success(status) {
        status_flaw("status "@, status)
    } else if text_flaw(body, "status"@) is Some {
        text_flaw(body, "status"@)
    } else if body.text_member("status"@) != Some("healthy"@) {
        Some(FlawView::Said("/health.status = "@ + body.text_member("status"@)->0))
    } else {
        text_flaw(body, "icp_version"@)
    }
}

/// Judges a health report.
pub fn check_health(status: u16, body: &Json) -> (r: Result<(), Flaw>)
    ensures
        match r {
            Ok(()) => health_flaw(status, body@) is None,
            Err(f) => health_flaw(status, body@) == Some(f@),
        },
{
    match require_success("status ", status) {
        Ok(()) => {},
        Err(f) => {
            return Err(f);
        },
    }
    let told = match require_str(body, "status") {
        Ok(t) => t,
        Err(f) => {
            return Err(f);
        },
    };
    if !str_eq(told, "healthy") {
        return Err(Flaw::Said(join2("/health.status = ", told)));
    }
    match require_str(body, "icp_version") {
        Ok(_) => Ok(()),
        Err(f) => Err(f),
    }
}

// ---------------------------------------------------------------------------
// Quotes and receipts
// ---------------------------------------------------------------------------

/// The type of an error response.
pub open spec fn error_type(body: JsonView) -> Option<Seq<char>> {
    member_or_null(body, "error"@).text_member("type"@)
}

fn error_type_is(body: &Json, wanted: &str) -> (r: bool)
    ensures
        r == (error_type(body@) == Some(wanted@)),
{
    match body.get("error") {
        Some(e) => match e.get_str("type") {
            Some(t) => str_eq(t, wanted),
            None => false,
        },
        None => false,
    }
}

/// Whether a refusal only says that a mandate is needed, and none was supplied.
pub open spec fn needs_mandate(status: u16, body: JsonView, has_mandate: bool) -> bool {
    status == 401 && error_type(body) == Some("mandate_invalid"@) && !has_mandate
}

/// What is wrong with the response to a quote.
pub open spec fn quote_flaw(status: u16, body: JsonView) -> Option<FlawView> {
    let txn = member_or_null(body, "transaction"@);
    let receipt = member_or_null(body, "receipt"@);
    if !success(status) {
        status_flaw("status "@, status)
    } else if text_flaw(body, "intent"@) is Some {
        text_flaw(body, "intent"@)
    } else if body.member("transaction"@) is None {
        Some(FlawView::Missing("transaction"@))
    } else if text_flaw(txn, "state"@) is Some {
        text_flaw(txn, "state"@)
    } else if txn.text_member("state"@) != Some("quoted"@) {
        Some(FlawView::Said("expected txn.state=quoted, got "@ + txn.text_member("state"@)->0))
    } else if text_flaw(txn, "id"@) is Some {
        text_flaw(txn, "id"@)
    } else if body.member("receipt"@) is None {
        Some(FlawView::Missing("receipt"@))
    } else if text_flaw(receipt, "jti"@) is Some {
        text_flaw(receipt, "jti"@)
    } else if !has_prefix(receipt.text_member("jti"@)->0, "rcpt_"@) {
        Some(
            FlawView::Said(
                "receipt.jti `"@ + receipt.text_member("jti"@)->0 + "` missing rcpt_ prefix"@,
            ),
        )
    } else {
        first(text_flaw(receipt, "jws"@), text_flaw(receipt, "body_digest"@))
    }
}

/// What a check came to.
#[derive(Debug)]
pub enum Verdict {
    Pass,
    Skip,
    Fail(Flaw),
}

/// Judges the response to a quote; skipped when the handler insists on a mandate
/// and none was supplied.
pub fn check_quote(status: u16, body: &Json, has_mandate: bool) -> (v: Verdict)
    ensures
        if needs_mandate(status, body@, has_mandate) {
            v is Skip
        } else {
            match quote_flaw(status, body@) {
                Some(f) => v matches Verdict::Fail(x) && x@ == f,
                None => v is Pass,
            }
        },
{
    if status == 401 && error_type_is(body, "mandate_invalid") && !has_mandate {
        return Verdict::Skip;
    }
    match judge_quote(status, body) {
        Ok(()) => Verdict::Pass,
        Err(f) => Verdict::Fail(f),
    }
}

fn judge_quote(status: u16, body: &Json) -> (r: Result<(), Flaw>)
    ensures
        match r {
            Ok(()) => quote_flaw(status, body@) is None,
            Err(f) => quote_flaw(status, body@) == Some(f@),
        },
{
    match require_success("status ", status) {
        Ok(()) => {},
        Err(f) => {
            return Err(f);
        },
    }
    match require_str(body, "intent") {
        Ok(_) => {},
        Err(f) => {
            return Err(f);
        },
    }
    let txn = match require_field(body, "transaction") {
        Ok(t) => t,
        Err(f) => {
            return Err(f);
        },
    };
    let state = match require_str(txn, "state") {
        Ok(t) => t,
        Err(f) => {
            return Err(f);
        },
    };
    if !str_eq(state, "quoted") {
        return Err(Flaw::Said(join2("expected txn.state=quoted, got ", state)));
    }
    match require_str(txn, "id") {
        Ok(_) => {},
        Err(f) => {
            return Err(f);
        },
    }
    let receipt = match require_field(body, "receipt") {
        Ok(t) => t,
        Err(f) => {
            return Err(f);
        },
    };
    let jti = match require_str(receipt, "jti") {
        Ok(t) => t,
        Err(f) => {
            return Err(f);
        },
    };
    if !starts_with(jti, "rcpt_") {
        return Err(Flaw::Said(join3("receipt.jti `", jti, "` missing rcpt_ prefix")));
    }
    match require_str(receipt, "jws") {
        Ok(_) => {},
        Err(f) => {
            return Err(f);
        },
    }
    match require_str(receipt, "body_digest") {
        Ok(_) => Ok(()),
        Err(f) => Err(f),
    }
}

/// The members with the one under this name replaced.
pub open spec fn replaced(
    m: Seq<(Seq<char>, JsonView)>,
    key: Seq<char>,
    v: JsonView,
) -> Seq<(Seq<char>, JsonView)> {
    m.map_values(
        |x: (Seq<char>, JsonView)|
            if x.0 == key {
                (x.0, v)
            } else {
                x
            },
    )
}

/// The receipt of a response before it was signed.
pub open spec fn blank_stub(kid: JsonView) -> JsonView {
    JsonView::Object(
        Seq::empty().push(("jti"@, JsonView::Str(""@))).push(("kid"@, kid)).push(
            ("jws"@, JsonView::Str(""@)),
        ).push(("body_digest"@, JsonView::Str(""@))),
    )
}

/// The response that was signed: the one at hand, with a blank receipt under the
/// same key.
pub fn unsigned_copy(members: &Vec<(String, Json)>) -> (r: Json)
    ensures
        ({
            let body = Json::Object(*members)@;
            let kid = member_or_null(member_or_null(body, "receipt"@), "kid"@);
            r@ == JsonView::Object(replaced(body->Object_0, "receipt"@, blank_stub(kid)))
        }),
{
    let ghost body = Json::Object(*members)@;
    let mut receipt = Json::Null;
    let mut i: usize = 0;
    let ghost all = body->Object_0;
    assert(all.len() == members@.len());
    let mut found: bool = false;
    while i < members.len()
        invariant
            i <= members@.len() == all.len(),
            forall|j: int|
                0 <= j < all.len() ==> #[trigger] all[j] == (members@[j].0@, members@[j].1@),
            !found ==> member_index(all, "receipt"@, 0) == member_index(all, "receipt"@, i as int)
                && receipt@ == JsonView::Null,
            found ==> member_index(all, "receipt"@, 0) is Some && receipt@
                == all[member_index(all, "receipt"@, 0)->0].1,
        decreases members@.len() - i,
    {
        assert(all[i as int] == (members@[i as int].0@, members@[i as int].1@));
        if !found && str_eq(members[i].0.as_str(), "receipt") {
            found = true;
            receipt = members[i].1.copy();
        }
        i += 1;
    }
    assert(receipt@ == member_or_null(body, "receipt"@));
    let kid = child(&receipt, "kid");
    let ghost kid_view = kid@;
    let stub = ObjectBuilder::new().put_str("jti", "").put("kid", kid).put_str("jws", "").put_str(
        "body_digest",
        "",
    ).build();
    let mut out: Vec<(String, Json)> = Vec::new();
    let mut i: usize = 0;
    while i < members.len()
        invariant
            i <= members@.len() == all.len(),
            out@.len() == i,
            stub@ == blank_stub(kid_view),
            forall|j: int|
                0 <= j < all.len() ==> #[trigger] all[j] == (members@[j].0@, members@[j].1@),
            forall|j: int|
                0 <= j < i ==> ((#[trigger] out@[j]).0@, out@[j].1@) == (if all[j].0 == "receipt"@ {
                    (all[j].0, blank_stub(kid_view))
                } else {
                    all[j]
                }),
        decreases members@.len() - i,
    {
        assert(all[i as int] == (members@[i as int].0@, members@[i as int].1@));
        let value = if str_eq(members[i].0.as_str(), "receipt") {
            stub.copy()
        } else {
            members[i].1.copy()
        };
        out.push((members[i].0.clone(), value));
        i += 1;
    }
    let r = Json::Object(out);
    assert(r@->Object_0 =~= replaced(all, "receipt"@, blank_stub(kid_view)));
    r
}

/// What is wrong with the digest of a response, given the canonical bytes of what
/// was signed.
pub open spec fn digest_flaw(body: JsonView, canonical: Seq<u8>) -> Option<FlawView> {
    let receipt = member_or_null(body, "receipt"@);
    if text_flaw(receipt, "body_digest"@) is Some {
        text_flaw(receipt, "body_digest"@)
    } else if receipt.text_member("body_digest"@) != Some(digest_claim(canonical)) {
        Some(
            FlawView::Said(
                "body_digest mismatch: computed "@ + digest_claim(canonical) + ", advertised "@
                    + receipt.text_member("body_digest"@)->0,
            ),
        )
    } else {
        None
    }
}

/// Judges the digest of a response.
pub fn check_digest(body: &Json, canonical: &[u8]) -> (r: Result<(), Flaw>)
    ensures
        match r {
            Ok(()) => digest_flaw(body@, canonical@) is None,
            Err(f) => digest_flaw(body@, canonical@) == Some(f@),
        },
{
    let receipt = child(body, "receipt");
    let advertised = match require_str(&receipt, "body_digest") {
        Ok(t) => t,
        Err(f) => {
            return Err(f);
        },
    };
    let hex = crate::crypto::body_sha256(canonical);
    let computed = join2("sha256:", hex.as_str());
    if str_eq(advertised, computed.as_str()) {
        Ok(())
    } else {
        Err(
            Flaw::Said(
                join4(
                    "body_digest mismatch: computed ",
                    computed.as_str(),
                    ", advertised ",
                    advertised,
                ),
            ),
        )
    }
}

/// The position of the key with this id, from `i` on.
pub open spec fn key_position(keys: Seq<JsonView>, kid: Seq<char>, i: int) -> Option<int>
    decreases keys.len() - i,
{
    if i < 0 || i >= keys.len() {
        None
    } else if keys[i].text_member("kid"@) == Some(kid) {
        Some(i)
    } else {
        key_position(keys, kid, i + 1)
    }
}

/// What is wrong with a signature under the key in `x`.
pub open spec fn signature_flaw(x: Seq<char>, jws: Seq<char>) -> Option<FlawView> {
    match base64url_bytes(x) {
        Err(m) => Some(FlawView::Said(m)),
        Ok(key) => if key.len() != 32 {
            Some(FlawView::Said("`x` is not 32 bytes"@))
        } else if key_defect(key) is Some {
            Some(FlawView::Said(key_defect(key)->0))
        } else {
            match jws_segments(jws) {
                Err(SegmentError::MissingPayload) => Some(FlawView::Said("jws missing payload"@)),
                Err(SegmentError::MissingSignature) => Some(
                    FlawView::Said("jws missing signature"@),
                ),
                Err(SegmentError::ExtraSegments) => Some(
                    FlawView::Said("jws has extra segments"@),
                ),
                Ok((h, p, s)) => match base64url_bytes(s) {
                    Err(m) => Some(FlawView::Said(m)),
                    Ok(sig) => if sig.len() != 64 {
                        Some(FlawView::Said("signature not 64 bytes"@))
                    } else if !signature_accepted(key, encode_utf8(signing_text(h, p)), sig) {
                        Some(FlawView::Said("signature verify: signature error"@))
                    } else {
                        None
                    },
                },
            }
        },
    }
}

/// Judges a signature under the key in `x`.
pub fn check_signature(x: &str, jws: &str) -> (r: Result<(), Flaw>)
    ensures
        match r {
            Ok(()) => signature_flaw(x@, jws@) is None,
            Err(f) => signature_flaw(x@, jws@) == Some(f@),
        },
{
    let bytes = match base64url_decode(x) {
        Ok(b) => b,
        Err(m) => {
            return Err(Flaw::Said(m));
        },
    };
    if bytes.len() != 32 {
        return Err(said("`x` is not 32 bytes"));
    }
    let key = match PublicKey::from_bytes(bytes) {
        Ok(k) => k,
        Err(m) => {
            return Err(Flaw::Said(m));
        },
    };
    let (h, p, s) = match segments(jws) {
        Ok(t) => t,
        Err(SegmentError::MissingPayload) => {
            return Err(said("jws missing payload"));
        },
        Err(SegmentError::MissingSignature) => {
            return Err(said("jws missing signature"));
        },
        Err(SegmentError::ExtraSegments) => {
            return Err(said("jws has extra segments"));
        },
    };
    let sig = match base64url_decode(s) {
        Ok(b) => b,
        Err(m) => {
            return Err(Flaw::Said(m));
        },
    };
    if sig.len() != 64 {
        return Err(said("signature not 64 bytes"));
    }
    let text = signing_input(h, p);
    if key.accepts(text.as_str().as_bytes(), &sig) {
        Ok(())
    } else {
        Err(said("signature verify: signature error"))
    }
}

/// What is wrong with the signature of a response under the key set of its
/// handler.
pub open spec fn receipt_flaw(jwks: JsonView, body: JsonView) -> Option<FlawView> {
    let receipt = member_or_null(body, "receipt"@);
    if text_flaw(receipt, "jws"@) is Some {
        text_flaw(receipt, "jws"@)
    } else if text_flaw(receipt, "kid"@) is Some {
        text_flaw(receipt, "kid"@)
    } else {
        let kid = receipt.text_member("kid"@)->0;
        match jwks.member("keys"@) {
            Some(JsonView::Array(keys)) => match key_position(keys, kid, 0) {
                None => Some(
                    FlawView::Said("receipt kid `"@ + kid + "` not present in JWKS"@),
                ),
                Some(i) => match keys[i].text_member("x"@) {
                    None => Some(FlawView::Said("jwks entry missing `x`"@)),
                    Some(x) => signature_flaw(x, receipt.text_member("jws"@)->0),
                },
            },
            _ => Some(FlawView::Said("jwks.keys missing"@)),
        }
    }
}

/// Judges the signature of a response under the key set of its handler.
pub fn check_receipt(jwks: &Json, body: &Json) -> (r: Result<(), Flaw>)
    ensures
        match r {
            Ok(()) => receipt_flaw(jwks@, body@) is None,
            Err(f) => receipt_flaw(jwks@, body@) == Some(f@),
        },
{
    let receipt = child(body, "receipt");
    let jws = match require_str(&receipt, "jws") {
        Ok(t) => t,
        Err(f) => {
            return Err(f);
        },
    };
    let kid = match require_str(&receipt, "kid") {
        Ok(t) => t,
        Err(f) => {
            return Err(f);
        },
    };
    let found = match jwks.get("keys") {
        Some(m) => m.as_array(),
        None => None,
    };
    let keys = match found {
        Some(v) => v,
        None => {
            return Err(said("jwks.keys missing"));
        },
    };
    let ghost all = jwks@.member("keys"@)->0->Array_0;
    let mut i: usize = 0;
    while i < keys.len()
        invariant
            i <= keys@.len() == all.len(),
            all == jwks@.member("keys"@)->0->Array_0,
            jwks@.member("keys"@) matches Some(JsonView::Array(_)),
            forall|j: int| 0 <= j < all.len() ==> #[trigger] all[j] == keys@[j]@,
            key_position(all, kid@, 0) == key_position(all, kid@, i as int),
            receipt@ == member_or_null(body@, "receipt"@),
            receipt@.text_member("jws"@) == Some(jws@),
            receipt@.text_member("kid"@) == Some(kid@),
            text_flaw(receipt@, "jws"@) is None,
            text_flaw(receipt@, "kid"@) is None,
        ensures
            key_position(all, kid@, 0) is None,
        decreases keys@.len() - i,
    {
        assert(all[i as int] == keys@[i as int]@);
        match keys[i].get_str("kid") {
            Some(k) => {
                if str_eq(k, kid) {
                    return match keys[i].get_str("x") {
                        Some(x) => check_signature(x, jws),
                        None => Err(said("jwks entry missing `x`")),
                    };
                }
            },
            None => {},
        }
        i += 1;
    }
    Err(Flaw::Said(join3("receipt kid `", kid, "` not present in JWKS")))
}

/// The claim among the first `n` of these that a document lacks.
pub open spec fn lacks(v: JsonView, names: Seq<Seq<char>>, i: int) -> Option<Seq<char>>
    decreases names.len() - i,
{
    if i < 0 || i >= names.len() {
        None
    } else if v.member(names[i]) is None {
        Some(names[i])
    } else {
        lacks(v, names, i + 1)
    }
}

/// The claims that every receipt carries.
pub open spec fn base_claims() -> Seq<Seq<char>> {
    Seq::empty().push("iss"@).push("aud"@).push("iat"@).push("jti"@)
}

/// The claims about the intent that every receipt carries.
pub open spec fn icp_claims() -> Seq<Seq<char>> {
    Seq::empty().push("version"@).push("intent"@).push("transaction_id"@).push(
        "body_digest"@,
    ).push("body_canonicalization"@)
}

/// What is wrong with the claims of a receipt.
pub open spec fn claims_flaw(claims: JsonView) -> Option<FlawView> {
    match lacks(claims, base_claims(), 0) {
        Some(k) => Some(FlawView::Said("receipt claims missing `"@ + k + "`"@)),
        None => match claims.member("icp"@) {
            None => Some(FlawView::Missing("icp"@)),
            Some(icp) => match lacks(icp, icp_claims(), 0) {
                Some(k) => Some(FlawView::Said("claims.icp missing `"@ + k + "`"@)),
                None => None,
            },
        },
    }
}

/// Judges the claims of a receipt.
pub fn check_claims(claims: &Json) -> (r: Result<(), Flaw>)
    ensures
        match r {
            Ok(()) => claims_flaw(claims@) is None,
            Err(f) => claims_flaw(claims@) == Some(f@),
        },
{
    proof {
        reveal_with_fuel(lacks, 6);
        assert(base_claims().len() == 4);
        assert(base_claims()[0] == "iss"@ && base_claims()[1] == "aud"@);
        assert(base_claims()[2] == "iat"@ && base_claims()[3] == "jti"@);
        assert(icp_claims().len() == 5);
        assert(icp_claims()[0] == "version"@ && icp_claims()[1] == "intent"@);
        assert(icp_claims()[2] == "transaction_id"@ && icp_claims()[3] == "body_digest"@);
        assert(icp_claims()[4] == "body_canonicalization"@);
    }
    match first_lacking(claims, "iss", "aud", "iat", "jti") {
        Some(k) => {
            return Err(Flaw::Said(join3("receipt claims missing `", k, "`")));
        },
        None => {},
    }
    let icp = match require_field(claims, "icp") {
        Ok(m) => m,
        Err(f) => {
            return Err(f);
        },
    };
    match first_lacking(icp, "version", "intent", "transaction_id", "body_digest") {
        Some(k) => {
            return Err(Flaw::Said(join3("claims.icp missing `", k, "`")));
        },
        None => {},
    }
    match icp.get("body_canonicalization") {
        Some(_) => Ok(()),
        None => Err(
            Flaw::Said(join3("claims.icp missing `", "body_canonicalization", "`")),
        ),
    }
}

fn first_lacking(
    v: &Json,
    a: &'static str,
    b: &'static str,
    c: &'static str,
    d: &'static str,
) -> (r: Option<&'static str>)
    ensures
        match r {
            Some(k) => if v@.member(a@) is None {
                k@ == a@
            } else if v@.member(b@) is None {
                k@ == b@
            } else if v@.member(c@) is None {
                k@ == c@
            } else {
                v@.member(d@) is None && k@ == d@
            },
            None => v@.member(a@) is Some && v@.member(b@) is Some && v@.member(c@) is Some
                && v@.member(d@) is Some,
        },
{
    if v.get(a).is_none() {
        Some(a)
    } else if v.get(b).is_none() {
        Some(b)
    } else if v.get(c).is_none() {
        Some(c)
    } else if v.get(d).is_none() {
        Some(d)
    } else {
        None
    }
}

// ---------------------------------------------------------------------------
// Errors
// ---------------------------------------------------------------------------

/// What is wrong with the response to an intent that does not exist.
pub open spec fn unknown_intent_flaw(status: u16, body: JsonView) -> Option<FlawView> {
    let err = member_or_null(body, "error"@);
    if status != 404 {
        Some(FlawView::Said("expected 404, got "@ + nat_text(status as nat)))
    } else if body.member("error"@) is None {
        Some(FlawView::Missing("error"@))
    } else if text_flaw(err, "type"@) is Some {
        text_flaw(err, "type"@)
    } else if err.text_member("type"@) != Some("intent_not_supported"@) {
        Some(
            FlawView::Said(
                "expected error.type=intent_not_supported, got "@ + err.text_member("type"@)->0,
            ),
        )
    } else if err.member("code"@) is None {
        Some(FlawView::Missing("code"@))
    } else if err.member("message"@) is None {
        Some(FlawView::Missing("message"@))
    } else if err.member("retriable"@) is None {
        Some(FlawView::Missing("retriable"@))
    } else {
        None
    }
}

/// Judges the response to an intent that does not exist.
pub fn check_unknown_intent(status: u16, body: &Json) -> (r: Result<(), Flaw>)
    ensures
        match r {
            Ok(()) => unknown_intent_flaw(status, body@) is None,
            Err(f) => unknown_intent_flaw(status, body@) == Some(f@),
        },
{
    if status != 404 {
        let n = nat_to_text(status as u128);
        return Err(Flaw::Said(join2("expected 404, got ", n.as_str())));
    }
    let err = match require_field(body, "error") {
        Ok(m) => m,
        Err(f) => {
            return Err(f);
        },
    };
    let kind = match require_str(err, "type") {
        Ok(t) => t,
        Err(f) => {
            return Err(f);
        },
    };
    if !str_eq(kind, "intent_not_supported") {
        return Err(Flaw::Said(join2("expected error.type=intent_not_supported, got ", kind)));
    }
    match require_field(err, "code") {
        Ok(_) => {},
        Err(f) => {
            return Err(f);
        },
    }
    match require_field(err, "message") {
        Ok(_) => {},
        Err(f) => {
            return Err(f);
        },
    }
    match require_field(err, "retriable") {
        Ok(_) => Ok(()),
        Err(f) => Err(f),
    }
}

/// What is wrong with the response to a caller without a key.
pub open spec fn missing_auth_flaw(status: u16, body: JsonView) -> Option<FlawView> {
    let err = member_or_null(body, "error"@);
    if status != 401 {
        Some(FlawView::Said("expected 401, got "@ + nat_text(status as nat)))
    } else if text_flaw(err, "type"@) is Some {
        text_flaw(err, "type"@)
    } else if err.text_member("type"@) != Some("authentication_failed"@) {
        Some(
            FlawView::Said("expected authentication_failed, got "@ + err.text_member("type"@)->0),
        )
    } else {
        None
    }
}

/// Judges the response to a caller without a key.
pub fn check_missing_auth(status: u16, body: &Json) -> (r: Result<(), Flaw>)
    ensures
        match r {
            Ok(()) => missing_auth_flaw(status, body@) is None,
            Err(f) => missing_auth_flaw(status, body@) == Some(f@),
        },
{
    if status != 401 {
        let n = nat_to_text(status as u128);
        return Err(Flaw::Said(join2("expected 401, got ", n.as_str())));
    }
    let err = child(body, "error");
    let kind = match require_str(&err, "type") {
        Ok(t) => t,
        Err(f) => {
            return Err(f);
        },
    };
    if str_eq(kind, "authentication_failed") {
        Ok(())
    } else {
        Err(Flaw::Said(join2("expected authentication_failed, got ", kind)))
    }
}

/// Judges the response to an advertised intent: whatever it is, it must not be
/// that the intent is unknown.
pub fn check_live(name: &str, body: &Json) -> (r: Result<(), Flaw>)
    ensures
        match r {
            Ok(()) => error_type(body@) != Some("intent_not_supported"@),
            Err(f) => error_type(body@) == Some("intent_not_supported"@) && f@ == FlawView::Said(
                "discovery advertises "@ + name@ + " but handler returns intent_not_supported"@,
            ),
        },
{
    if error_type_is(body, "intent_not_supported") {
        Err(
            Flaw::Said(
                join3(
                    "discovery advertises ",
                    name,
                    " but handler returns intent_not_supported",
                ),
            ),
        )
    } else {
        Ok(())
    }
}

// ---------------------------------------------------------------------------
// Reads and the lifecycle
// ---------------------------------------------------------------------------

/// The state of the transaction in a response.
pub open spec fn shown_state(body: JsonView) -> Option<Seq<char>> {
    member_or_null(body, "transaction"@).text_member("state"@)
}

/// Judges one step of a purchase: it must succeed and leave the transaction in
/// the wanted state.
pub fn check_step(
    status: u16,
    body: &Json,
    complaint: &'static str,
    step: &'static str,
    wanted: &'static str,
) -> (r: Result<(), Flaw>)
    ensures
        match r {
            Ok(()) => success(status) && shown_state(body@) == Some(wanted@),
            Err(f) => if !success(status) {
                status_flaw(complaint@, status) == Some(f@)
            } else {
                shown_state(body@) != Some(wanted@) && f@ == FlawView::WrongState(step@, wanted@)
            },
        },
{
    match require_success(complaint, status) {
        Ok(()) => {},
        Err(f) => {
            return Err(f);
        },
    }
    let reached = match body.get("transaction") {
        Some(t) => match t.get_str("state") {
            Some(s) => str_eq(s, wanted),
            None => false,
        },
        None => false,
    };
    if reached {
        Ok(())
    } else {
        Err(Flaw::WrongState(step, wanted))
    }
}

/// What is wrong with a receipt that was fetched by its id.
pub open spec fn stored_receipt_flaw(status: u16, stored: JsonView, jti: Seq<char>) -> Option<
    FlawView,
> {
    if !success(status) {
        status_flaw("receipt fetch status "@, status)
    } else if text_flaw(stored, "jti"@) is Some {
        text_flaw(stored, "jti"@)
    } else if stored.text_member("jti"@) != Some(jti) {
        Some(
            FlawView::Said(
                "retrieved jti `"@ + stored.text_member("jti"@)->0 + "` != expected `"@ + jti + "`"@,
            ),
        )
    } else if text_flaw(stored, "jws"@) is Some {
        text_flaw(stored, "jws"@)
    } else if text_flaw(stored, "body_digest"@) is Some {
        text_flaw(stored, "body_digest"@)
    } else if !has_prefix(stored.text_member("body_digest"@)->0, "sha256:"@) {
        Some(
            FlawView::Said(
                "body_digest `"@ + stored.text_member("body_digest"@)->0
                    + "` does not start with sha256:"@,
            ),
        )
    } else {
        None
    }
}

/// Judges a receipt that was fetched by its id.
pub fn check_stored_receipt(status: u16, stored: &Json, jti: &str) -> (r: Result<(), Flaw>)
    ensures
        match r {
            Ok(()) => stored_receipt_flaw(status, stored@, jti@) is None,
            Err(f) => stored_receipt_flaw(status, stored@, jti@) == Some(f@),
        },
{
    match require_success("receipt fetch status ", status) {
        Ok(()) => {},
        Err(f) => {
            return Err(f);
        },
    }
    let got = match require_str(stored, "jti") {
        Ok(t) => t,
        Err(f) => {
            return Err(f);
        },
    };
    if !str_eq(got, jti) {
        return Err(Flaw::Said(join5("retrieved jti `", got, "` != expected `", jti, "`")));
    }
    match require_str(stored, "jws") {
        Ok(_) => {},
        Err(f) => {
            return Err(f);
        },
    }
    let digest = match require_str(stored, "body_digest") {
        Ok(t) => t,
        Err(f) => {
            return Err(f);
        },
    };
    if starts_with(digest, "sha256:") {
        Ok(())
    } else {
        Err(Flaw::Said(join3("body_digest `", digest, "` does not start with sha256:")))
    }
}

/// Judges a transaction that was fetched by its id.
pub fn check_stored_transaction(status: u16, stored: &Json, id: &str) -> (r: Result<(), Flaw>)
    ensures
        match r {
            Ok(()) => success(status) && stored@.text_member("id"@) == Some(id@),
            Err(f) => if !success(status) {
                status_flaw("txn fetch status "@, status) == Some(f@)
            } else {
                stored@.text_member("id"@) != Some(id@) && f@ == FlawView::Said(
                    "retrieved id != expected `"@ + id@ + "`"@,
                )
            },
        },
{
    match require_success("txn fetch status ", status) {
        Ok(()) => {},
        Err(f) => {
            return Err(f);
        },
    }
    let same = match stored.get_str("id") {
        Some(got) => str_eq(got, id),
        None => false,
    };
    if same {
        Ok(())
    } else {
        Err(Flaw::Said(join3("retrieved id != expected `", id, "`")))
    }
}

// ---------------------------------------------------------------------------
// Laws
// ---------------------------------------------------------------------------

/// What the signer itself accepts, anyone accepts who has its key.
pub proof fn law_receipts_verify_offline(
    kid: Seq<char>,
    key: Seq<u8>,
    x: Seq<char>,
    jws: Seq<char>,
    header: Result<JwsHeader, String>,
    claims: Result<ReceiptClaims, String>,
    body: Option<Seq<u8>>,
)
    requires
        receipt_refusal(kid, key, jws, header, claims, body) is None,
        readable_key(x, key),
    ensures
        signature_flaw(x, jws) is None,
{
}

/// The key set of a handler verifies the receipts of its responses: one that the
/// signer accepts, and that names the signer's key, has no flaw under the key that
/// the handler publishes.
pub proof fn law_published_keys_verify_receipts(
    kid: Seq<char>,
    key: Seq<u8>,
    jws: Seq<char>,
    header: Result<JwsHeader, String>,
    claims: Result<ReceiptClaims, String>,
    signed: Option<Seq<u8>>,
    jwks: JsonView,
    body: JsonView,
)
    requires
        receipt_refusal(kid, key, jws, header, claims, signed) is None,
        readable_key(base64url_text(key), key),
        jwks.member("keys"@) == Some(JsonView::Array(seq![jwk_document(kid, key)])),
        member_or_null(body, "receipt"@).text_member("jws"@) == Some(jws),
        member_or_null(body, "receipt"@).text_member("kid"@) == Some(kid),
    ensures
        receipt_flaw(jwks, body) is None,
{
    let x = base64url_text(key);
    law_receipts_verify_offline(kid, key, x, jws, header, claims, signed);
    let entry = jwk_document(kid, key);
    let m = entry->Object_0;
    reveal_strlit("kty");
    reveal_strlit("crv");
    reveal_strlit("kid");
    reveal_strlit("alg");
    reveal_strlit("use");
    reveal_strlit("x");
    reveal_with_fuel(member_index, 7);
    assert("kty"@[1] != "kid"@[1]);
    assert("crv"@[0] != "kid"@[0]);
    assert(entry.text_member("kid"@) == Some(kid));
    assert("kty"@.len() != "x"@.len() && "crv"@.len() != "x"@.len() && "kid"@.len() != "x"@.len());
    assert("alg"@.len() != "x"@.len() && "use"@.len() != "x"@.len());
    assert(m.len() == 6);
    assert(entry.text_member("x"@) == Some(x));
    let keys = seq![entry];
    assert(keys[0] == entry);
    assert(key_position(keys, kid, 0) == Some(0int));
}

/// A text is required to be there and to be a text.
pub proof fn law_required_texts_are_there(v: JsonView, key: Seq<char>)
    ensures
        text_flaw(v, key) is None <==> v.text_member(key) is Some,
{
}

/// A handler is found exactly when its discovery document names its version, which is that of
/// the header, some intents, and some keys.
pub proof fn law_discovery_documents_are_complete(
    status: u16,
    version: Option<Seq<char>>,
    body: JsonView,
)
    ensures
        discovery_flaw(status, version, body) is None <==> {
            &&& 200 <= status < 300
            &&& version is Some && body.text_member("icp_version"@) == version
            &&& body.member("intents"@) matches Some(JsonView::Array(intents)) && intents.len() > 0
            &&& body.member("signing_keys"@) matches Some(JsonView::Array(keys)) && keys.len() > 0
        },
{
}

proof fn lemma_sound_keys(keys: Seq<JsonView>, from: int)
    requires
        0 <= from <= keys.len(),
    ensures
        jwk_flaws(keys, from) is None <==> forall|i: int|
            from <= i < keys.len() ==> jwk_flaw(#[trigger] keys[i], i) is None,
    decreases keys.len() - from,
{
    if from < keys.len() {
        lemma_sound_keys(keys, from + 1);
        if jwk_flaws(keys, from) is None {
            assert forall|i: int| from <= i < keys.len() implies jwk_flaw(
                #[trigger] keys[i],
                i,
            ) is None by {}
        }
    }
}

/// The published keys are sound exactly when there is one at least, and each is for EdDSA, has
/// a name, and holds 32 bytes.
pub proof fn law_published_keys_are_sound(status: u16, body: JsonView)
    ensures
        jwks_flaw(status, body) is None <==> {
            &&& 200 <= status < 300
            &&& body.member("keys"@) matches Some(JsonView::Array(keys)) && keys.len() > 0
                && forall|i: int|
                0 <= i < keys.len() ==> {
                    let key = #[trigger] keys[i];
                    &&& key.text_member("alg"@) == Some("EdDSA"@)
                    &&& key.text_member("kid"@) is Some
                    &&& key.text_member("x"@) matches Some(x) && (base64url_bytes(x) matches Ok(b)
                        && b.len() == 32)
                }
        },
{
    if body.member("keys"@) matches Some(JsonView::Array(_)) {
        let keys = body.member("keys"@)->0->Array_0;
        lemma_sound_keys(keys, 0);
        assert forall|i: int| 0 <= i < keys.len() implies (jwk_flaw(#[trigger] keys[i], i) is None
            <==> {
            let key = keys[i];
            &&& key.text_member("alg"@) == Some("EdDSA"@)
            &&& key.text_member("kid"@) is Some
            &&& key.text_member("x"@) matches Some(x) && (base64url_bytes(x) matches Ok(b)
                && b.len() == 32)
        }) by {}
    }
}

/// A handler is healthy exactly when it says so, and names its version.
pub proof fn law_healthy_handlers_say_so(status: u16, body: JsonView)
    ensures
        health_flaw(status, body) is None <==> 200 <= status < 300 && body.text_member("status"@)
            == Some("healthy"@) && body.text_member("icp_version"@) is Some,
{
}

/// A quote is sound exactly when it shows a quoted transaction with an id and a receipt with an
/// id of its kind, a signature and a digest. Without a mandate a refusal for want of one is no
/// flaw of the handler.
pub proof fn law_sound_quotes_have_a_receipt(status: u16, body: JsonView)
    ensures
        quote_flaw(status, body) is None <==> {
            &&& 200 <= status < 300 && body.text_member("intent"@) is Some
            &&& body.member("transaction"@) matches Some(t) && t.text_member("state"@) == Some(
                "quoted"@,
            ) && t.text_member("id"@) is Some
            &&& body.member("receipt"@) matches Some(r) && (r.text_member("jti"@) matches Some(j)
                && has_prefix(j, "rcpt_"@)) && r.text_member("jws"@) is Some && r.text_member(
                "body_digest"@,
            ) is Some
        },
        needs_mandate(status, body, true) == false,
        needs_mandate(status, body, false) <==> status == 401 && (body.member(
            "error"@,
        ) matches Some(e) && e.text_member("type"@) == Some("mandate_invalid"@)),
{
}

/// The digest of a receipt is right exactly when it is that of the canonical form.
pub proof fn law_digests_are_those_of_the_canonical_form(body: JsonView, canonical: Seq<u8>)
    ensures
        digest_flaw(body, canonical) is None <==> (body.member("receipt"@) matches Some(r)
            && r.text_member("body_digest"@) == Some("sha256:"@ + hex_text(sha256(canonical)))),
{
}

/// A signature is right exactly when the key is sound and accepts it over the first two of
/// three segments.
pub proof fn law_signatures_are_over_the_first_two_segments(
    x: Seq<char>,
    h: Seq<char>,
    p: Seq<char>,
    s: Seq<char>,
)
    requires
        dotless(h),
        dotless(p),
        dotless(s),
    ensures
        signature_flaw(x, h + "."@ + p + "."@ + s) is None <==> (base64url_bytes(x) matches Ok(key)
            && key.len() == 32 && key_defect(key) is None && (base64url_bytes(s) matches Ok(sig)
            && sig.len() == 64 && signature_accepted(key, encode_utf8(h + "."@ + p), sig))),
{
    law_segments_of_compact(h, p, s);
    assert(h + "."@ + p + "."@ + s =~= compact_text(h, p, s));
}

proof fn lemma_key_position(keys: Seq<JsonView>, kid: Seq<char>, from: int)
    requires
        0 <= from <= keys.len(),
    ensures
        match key_position(keys, kid, from) {
            Some(i) => from <= i < keys.len() && keys[i].text_member("kid"@) == Some(kid) && forall|
                j: int,
            |
                from <= j < i ==> (#[trigger] keys[j]).text_member("kid"@) != Some(kid),
            None => forall|j: int|
                from <= j < keys.len() ==> (#[trigger] keys[j]).text_member("kid"@) != Some(kid),
        },
    decreases keys.len() - from,
{
    if from < keys.len() && keys[from].text_member("kid"@) != Some(kid) {
        lemma_key_position(keys, kid, from + 1);
    }
}

/// A receipt is right exactly when the first published key of its name accepts its signature.
pub proof fn law_receipts_are_checked_with_the_published_key(
    jwks: JsonView,
    body: JsonView,
    keys: Seq<JsonView>,
    i: int,
    kid: Seq<char>,
    jws: Seq<char>,
)
    requires
        jwks.member("keys"@) == Some(JsonView::Array(keys)),
        body.member("receipt"@) matches Some(r) && r.text_member("kid"@) == Some(kid)
            && r.text_member("jws"@) == Some(jws),
        0 <= i < keys.len(),
        keys[i].text_member("kid"@) == Some(kid),
        forall|j: int| 0 <= j < i ==> (#[trigger] keys[j]).text_member("kid"@) != Some(kid),
    ensures
        receipt_flaw(jwks, body) is None <==> (keys[i].text_member("x"@) matches Some(x)
            && signature_flaw(x, jws) is None),
{
    lemma_key_position(keys, kid, 0);
}

proof fn lemma_lacks(v: JsonView, names: Seq<Seq<char>>, from: int)
    requires
        0 <= from <= names.len(),
    ensures
        lacks(v, names, from) is None <==> forall|i: int|
            from <= i < names.len() ==> v.member(#[trigger] names[i]) is Some,
    decreases names.len() - from,
{
    if from < names.len() {
        lemma_lacks(v, names, from + 1);
    }
}

/// The claims of a receipt are complete exactly when they say who issued it to whom, when,
/// under which id, and of which intent, transaction, version and digest.
pub proof fn law_complete_claims_say_everything(claims: JsonView)
    ensures
        claims_flaw(claims) is None <==> {
            &&& claims.member("iss"@) is Some && claims.member("aud"@) is Some && claims.member(
                "iat"@,
            ) is Some && claims.member("jti"@) is Some
            &&& claims.member("icp"@) matches Some(icp) && icp.member("version"@) is Some
                && icp.member("intent"@) is Some && icp.member("transaction_id"@) is Some
                && icp.member("body_digest"@) is Some && icp.member("body_canonicalization"@)
                is Some
        },
{
    let a = base_claims();
    let b = icp_claims();
    lemma_lacks(claims, a, 0);
    assert(a[0] == "iss"@ && a[1] == "aud"@ && a[2] == "iat"@ && a[3] == "jti"@ && a.len() == 4);
    assert(b[0] == "version"@ && b[1] == "intent"@ && b[2] == "transaction_id"@ && b[3]
        == "body_digest"@ && b[4] == "body_canonicalization"@ && b.len() == 5);
    if claims.member("icp"@) is Some {
        lemma_lacks(claims.member("icp"@)->0, b, 0);
    }
    assert(lacks(claims, a, 0) is None ==> claims.member(a[0]) is Some && claims.member(a[1])
        is Some && claims.member(a[2]) is Some && claims.member(a[3]) is Some);
    if claims.member("icp"@) is Some {
        let icp = claims.member("icp"@)->0;
        assert(lacks(icp, b, 0) is None ==> icp.member(b[0]) is Some && icp.member(b[1]) is Some
            && icp.member(b[2]) is Some && icp.member(b[3]) is Some && icp.member(b[4]) is Some);
    }
}

/// An unknown intent and a request without a key are refused as they should be exactly with
/// their status and their type of error.
pub proof fn law_refusals_are_of_their_type(status: u16, body: JsonView)
    ensures
        unknown_intent_flaw(status, body) is None <==> status == 404 && (body.member(
            "error"@,
        ) matches Some(e) && e.text_member("type"@) == Some("intent_not_supported"@) && e.member(
            "code"@,
        ) is Some && e.member("message"@) is Some && e.member("retriable"@) is Some),
        missing_auth_flaw(status, body) is None <==> status == 401 && (body.member(
            "error"@,
        ) matches Some(e) && e.text_member("type"@) == Some("authentication_failed"@)),
{
}

/// A receipt that was kept can be fetched exactly when it comes under its id, with its signature
/// and a digest.
pub proof fn law_kept_receipts_can_be_fetched(status: u16, stored: JsonView, jti: Seq<char>)
    ensures
        stored_receipt_flaw(status, stored, jti) is None <==> 200 <= status < 300
            && stored.text_member("jti"@) == Some(jti) && stored.text_member("jws"@) is Some && (
        stored.text_member("body_digest"@) matches Some(d) && has_prefix(d, "sha256:"@)),
{
}

/// The copy of a response that its receipt was signed over differs from it only in the receipt,
/// which names nothing but the key.
pub proof fn law_unsigned_copies_differ_in_the_receipt(
    m: Seq<(Seq<char>, JsonView)>,
    v: JsonView,
    i: int,
)
    requires
        0 <= i < m.len(),
    ensures
        replaced(m, "receipt"@, v).len() == m.len(),
        m[i].0 == "receipt"@ ==> replaced(m, "receipt"@, v)[i] == ("receipt"@, v),
        m[i].0 != "receipt"@ ==> replaced(m, "receipt"@, v)[i] == m[i],
{
}

} // verus!
