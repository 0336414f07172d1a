//! Receipts: compact JWS documents that the handler signs over its responses.
//!
//! The header names the key, the payload holds the claims, and the signature is
//! the Ed25519 signature over the first two segments. The claims carry the
//! SHA-256 digest of the canonical response body.

use vstd::prelude::*;
use vstd::utf8::encode_utf8;

use crate::constants::ICP_VERSION;
use crate::crypto::{
    base64_bytes, base64_decode, base64url_bytes, base64url_decode, base64url_encode,
    base64url_text, body_sha256, hex_text, key_defect, pkcs8_secret, public_key, sha256,
    sha256_hex, signature_accepted, signature_of, SecretSeed,
};
use crate::documents::{claims_document, claims_json};
use crate::json::{canonical_bytes, json_text, lemma_member_found, Json, JsonView, ObjectBuilder};
use crate::jws::{
    compact_text, dotless, jws_segments, law_segments_of_compact, segments, signing_input,
    signing_text, SegmentError,
};
use crate::numerals::{nat_text, nat_to_text};
use crate::text::{
    has_prefix, join2, join3, join5, opt_text, opt_view, split, split_all, starts_with, str_eq,
    trim, trimmed, views,
};
use crate::time::Timestamp;

verus! {

/// The protocol part of the claims.
#[derive(Debug)]
pub struct ReceiptIcp {
    pub version: String,
    pub intent: String,
    pub transaction_id: String,
    pub order_id: Option<String>,
    pub mandate_jti: Option<String>,
    pub body_digest: String,
    pub body_canonicalization: String,
}

impl Clone for ReceiptIcp {
    fn clone(&self) -> (r: Self)
        ensures
            r == *self,
    {
        ReceiptIcp {
            version: self.version.clone(),
            intent: self.intent.clone(),
            transaction_id: self.transaction_id.clone(),
            order_id: self.order_id.clone(),
            mandate_jti: self.mandate_jti.clone(),
            body_digest: self.body_digest.clone(),
            body_canonicalization: self.body_canonicalization.clone(),
        }
    }
}

/// What a receipt attests.
#[derive(Debug)]
pub struct ReceiptClaims {
    pub iss: String,
    pub aud: String,
    pub iat: i64,
    pub jti: String,
    pub icp: ReceiptIcp,
}

impl Clone for ReceiptClaims {
    fn clone(&self) -> (r: Self)
        ensures
            r == *self,
    {
        ReceiptClaims {
            iss: self.iss.clone(),
            aud: self.aud.clone(),
            iat: self.iat,
            jti: self.jti.clone(),
            icp: self.icp.clone(),
        }
    }
}

/// The header of a receipt.
#[derive(Debug)]
pub struct JwsHeader {
    pub alg: String,
    pub typ: String,
    pub kid: String,
}

impl Clone for JwsHeader {
    fn clone(&self) -> (r: Self)
        ensures
            r == *self,
    {
        JwsHeader {
            alg: self.alg.clone(),
            typ: self.typ.clone(),
            kid: self.kid.clone(),
        }
    }
}

/// A receipt as it was signed.
#[derive(Debug)]
pub struct SignedReceipt {
    pub jti: String,
    pub kid: String,
    pub jws: String,
    pub body_digest: String,
    pub claims: ReceiptClaims,
}

/// Why a key could not be loaded or a receipt could not be signed.
#[derive(Debug)]
pub enum SigningError {
    KeyLoad(String),
    Canonicalization(String),
    Serde(String),
}

/// The model of a [`SigningError`].
pub enum SigningErrorView {
    KeyLoad(Seq<char>),
    Canonicalization(Seq<char>),
    Serde(Seq<char>),
}

impl View for SigningError {
    type V = SigningErrorView;

    open spec fn view(&self) -> SigningErrorView {
        match self {
            SigningError::KeyLoad(m) => SigningErrorView::KeyLoad(m@),
            SigningError::Canonicalization(m) => SigningErrorView::Canonicalization(m@),
            SigningError::Serde(m) => SigningErrorView::Serde(m@),
        }
    }
}

impl SigningError {
    /// The one-line description.
    pub fn to_text(&self) -> (r: String)
        ensures
            r@ == (match self@ {
                SigningErrorView::KeyLoad(m) => "key load failed: "@ + m,
                SigningErrorView::Canonicalization(m) => "canonicalization failed: "@ + m,
                SigningErrorView::Serde(m) => "serialization failed: "@ + m,
            }),
    {
        match self {
            SigningError::KeyLoad(m) => join2("key load failed: ", m.as_str()),
            SigningError::Canonicalization(m) => join2("canonicalization failed: ", m.as_str()),
            SigningError::Serde(m) => join2("serialization failed: ", m.as_str()),
        }
    }
}

// ---------------------------------------------------------------------------
// Keys
// ---------------------------------------------------------------------------

/// The base64 text in a PEM document, line by line: lines are trimmed, and empty
/// lines and the `BEGIN` and `END` lines are left out.
pub open spec fn pem_lines(lines: Seq<Seq<char>>) -> Seq<char>
    decreases lines.len(),
{
    if lines.len() == 0 {
        Seq::empty()
    } else {
        let line = trimmed(lines.last());
        let before = pem_lines(lines.drop_last());
        if line.len() == 0 || has_prefix(line, "-----BEGIN "@) || has_prefix(line, "-----END "@) {
            before
        } else {
            before + line
        }
    }
}

/// The base64 text in a PEM document.
pub open spec fn pem_body(pem: Seq<char>) -> Seq<char> {
    pem_lines(split_all(pem, '\n'))
}

/// The bytes of a PEM document.
pub open spec fn pem_bytes(pem: Seq<char>) -> Result<Seq<u8>, SigningErrorView> {
    match base64_bytes(pem_body(pem)) {
        Ok(der) => Ok(der),
        Err(m) => Err(SigningErrorView::KeyLoad("PEM base64 decode: "@ + m)),
    }
}

/// The bytes of a PEM document.
pub fn pem_to_der(pem: &str) -> (r: Result<Vec<u8>, SigningError>)
    ensures
        match r {
            Ok(der) => pem_bytes(pem@) == Ok::<Seq<u8>, SigningErrorView>(der@),
            Err(e) => pem_bytes(pem@) == Err::<Seq<u8>, SigningErrorView>(e@),
        },
{
    let lines = split(pem, '\n');
    let mut body = String::new();
    let mut i: usize = 0;
    assert(views(lines@.take(0)) =~= Seq::<Seq<char>>::empty());
    while i < lines.len()
        invariant
            i <= lines@.len(),
            body@ == pem_lines(views(lines@.take(i as int))),
        decreases lines@.len() - i,
    {
        let line = trim(lines[i]);
        let ghost upto = views(lines@.take(i as int + 1));
        assert(upto.drop_last() =~= views(lines@.take(i as int)));
        assert(upto.last() == lines@[i as int]@);
        if !line.is_empty() && !starts_with(line, "-----BEGIN ") && !starts_with(
            line,
            "-----END ",
        ) {
            body.append(line);
        }
        i += 1;
    }
    assert(lines@.take(lines@.len() as int) =~= lines@);
    match base64_decode(body.as_str()) {
        Ok(der) => Ok(der),
        Err(m) => Err(SigningError::KeyLoad(join2("PEM base64 decode: ", m.as_str()))),
    }
}

/// The key pair that signs receipts, and the name it goes by.
pub struct ReceiptSigner {
    pub kid: String,
    pub seed: SecretSeed,
}

/// The secret in a PEM document with a PKCS #8 key.
pub open spec fn pem_secret(pem: Seq<char>) -> Result<Seq<u8>, SigningErrorView> {
    match pem_bytes(pem) {
        Err(e) => Err(e),
        Ok(der) => match pkcs8_secret(der) {
            Ok(seed) => Ok(seed),
            Err(m) => Err(SigningErrorView::KeyLoad(m)),
        },
    }
}

impl ReceiptSigner {
    /// The secret half of the key pair.
    pub open spec fn secret(&self) -> Seq<u8> {
        self.seed@
    }

    /// A signer with a key that lasts as long as the process.
    pub fn generate(kid: &str) -> (r: ReceiptSigner)
        ensures
            r.kid@ == kid@,
            r.secret().len() == 32,
    {
        ReceiptSigner { kid: String::from_str(kid), seed: SecretSeed::generate() }
    }

    /// A signer with the PKCS #8 key of a PEM document.
    pub fn from_pkcs8_pem(kid: &str, pem: &str) -> (r: Result<ReceiptSigner, SigningError>)
        ensures
            match r {
                Ok(s) => s.kid@ == kid@ && pem_secret(pem@) == Ok::<Seq<u8>, SigningErrorView>(
                    s.secret(),
                ),
                Err(e) => pem_secret(pem@) == Err::<Seq<u8>, SigningErrorView>(e@),
            },
    {
        let der = match pem_to_der(pem) {
            Ok(der) => der,
            Err(e) => {
                return Err(e);
            },
        };
        match SecretSeed::from_pkcs8(der.as_slice()) {
            Ok(seed) => Ok(ReceiptSigner { kid: String::from_str(kid), seed }),
            Err(m) => Err(SigningError::KeyLoad(m)),
        }
    }

    /// The public half of the key pair.
    pub fn verifying_key_bytes(&self) -> (r: Vec<u8>)
        ensures
            r@ == public_key(self.secret()),
            r@.len() == 32,
            key_defect(r@) is None,
    {
        self.seed.public().to_bytes()
    }

    /// The public half as an entry of a JSON Web Key Set.
    pub fn jwk(&self) -> (r: Json)
        ensures
            r@ == jwk_document(self.kid@, public_key(self.secret())),
            readable_key(base64url_text(public_key(self.secret())), public_key(self.secret())),
    {
        let key = self.verifying_key_bytes();
        let x = base64url_encode(key.as_slice());
        let b = ObjectBuilder::new().put_str("kty", "OKP").put_str("crv", "Ed25519").put_str(
            "kid",
            self.kid.as_str(),
        ).put_str("alg", "EdDSA").put_str("use", "sig").put_str("x", x.as_str());
        assert(b@ =~= jwk_document(self.kid@, key@)->Object_0);
        b.build()
    }

    /// The header of the receipts of this signer.
    pub fn header(&self) -> (r: JwsHeader)
        ensures
            r.alg@ == "EdDSA"@,
            r.typ@ == "JWT"@,
            r.kid == self.kid,
    {
        JwsHeader {
            alg: String::from_str("EdDSA"),
            typ: String::from_str("JWT"),
            kid: self.kid.clone(),
        }
    }
}

/// Whether anyone can read the key in `x`, and use it.
pub open spec fn readable_key(x: Seq<char>, key: Seq<u8>) -> bool {
    &&& base64url_bytes(x) == Ok::<Seq<u8>, Seq<char>>(key)
    &&& key.len() == 32
    &&& key_defect(key) is None
}

/// The JSON Web Key of an Ed25519 public key.
pub open spec fn jwk_document(kid: Seq<char>, key: Seq<u8>) -> JsonView {
    JsonView::Object(
        seq![
            ("kty"@, JsonView::Str("OKP"@)),
            ("crv"@, JsonView::Str("Ed25519"@)),
            ("kid"@, JsonView::Str(kid)),
            ("alg"@, JsonView::Str("EdDSA"@)),
            ("use"@, JsonView::Str("sig"@)),
            ("x"@, JsonView::Str(base64url_text(key))),
        ],
    )
}

// ---------------------------------------------------------------------------
// Signing
// ---------------------------------------------------------------------------

/// The digest of a canonical body, as claims carry it.
pub open spec fn digest_claim(body: Seq<u8>) -> Seq<char> {
    "sha256:"@ + sha256_hex(body)
}

/// The claims of a receipt over a canonical body, signed at `now` under the
/// given id.
pub fn receipt_claims(
    aud_agent_id: &str,
    iss_handler_url: &str,
    intent: &str,
    transaction_id: &str,
    order_id: Option<&str>,
    mandate_jti: Option<&str>,
    body_json_bytes: &[u8],
    now: Timestamp,
    jti: String,
) -> (r: ReceiptClaims)
    ensures
        r.iss@ == iss_handler_url@,
        r.aud@ == aud_agent_id@,
        r.iat == now@ / 1_000_000_000,
        r.jti == jti,
        r.icp.version@ == ICP_VERSION@,
        r.icp.intent@ == intent@,
        r.icp.transaction_id@ == transaction_id@,
        opt_text(r.icp.order_id) == opt_view(order_id),
        opt_text(r.icp.mandate_jti) == opt_view(mandate_jti),
        r.icp.body_digest@ == digest_claim(body_json_bytes@),
        r.icp.body_canonicalization@ == "jcs"@,
{
    let digest = body_sha256(body_json_bytes);
    ReceiptClaims {
        iss: String::from_str(iss_handler_url),
        aud: String::from_str(aud_agent_id),
        iat: now.unix_seconds(),
        jti,
        icp: ReceiptIcp {
            version: String::from_str(ICP_VERSION),
            intent: String::from_str(intent),
            transaction_id: String::from_str(transaction_id),
            order_id: match order_id {
                Some(o) => Some(String::from_str(o)),
                None => None,
            },
            mandate_jti: match mandate_jti {
                Some(m) => Some(String::from_str(m)),
                None => None,
            },
            body_digest: join2("sha256:", digest.as_str()),
            body_canonicalization: String::from_str("jcs"),
        },
    }
}

/// The compact JWS over the JSON texts of a header and of claims.
pub open spec fn signed_text(secret: Seq<u8>, header_json: Seq<u8>, claims_json: Seq<u8>) -> Seq<
    char,
> {
    let h = base64url_text(header_json);
    let p = base64url_text(claims_json);
    compact_text(
        h,
        p,
        base64url_text(signature_of(secret, encode_utf8(signing_text(h, p)))),
    )
}

// ---------------------------------------------------------------------------
// Verification
// ---------------------------------------------------------------------------

/// The segments of a receipt, or what is wrong with the framing.
pub open spec fn receipt_segments(jws: Seq<char>) -> Result<
    (Seq<char>, Seq<char>, Seq<char>),
    Seq<char>,
> {
    match jws_segments(jws) {
        Ok(t) => Ok(t),
        Err(SegmentError::MissingPayload) => Err("receipt: missing payload segment"@),
        Err(SegmentError::MissingSignature) => Err("receipt: missing signature segment"@),
        Err(SegmentError::ExtraSegments) => Err("receipt: unexpected extra segments"@),
    }
}

fn split_receipt<'a>(jws: &'a str) -> (r: Result<(&'a str, &'a str, &'a str), String>)
    ensures
        match r {
            Ok((h, p, s)) => receipt_segments(jws@) matches Ok(t) && t == (h@, p@, s@),
            Err(m) => receipt_segments(jws@) matches Err(x) && x == m@,
        },
{
    match segments(jws) {
        Ok(t) => Ok(t),
        Err(SegmentError::MissingPayload) => Err(
            String::from_str("receipt: missing payload segment"),
        ),
        Err(SegmentError::MissingSignature) => Err(
            String::from_str("receipt: missing signature segment"),
        ),
        Err(SegmentError::ExtraSegments) => Err(
            String::from_str("receipt: unexpected extra segments"),
        ),
    }
}

/// The JSON text of the header of a receipt, or what is wrong with it.
pub open spec fn receipt_header(jws: Seq<char>) -> Result<Seq<u8>, Seq<char>> {
    match receipt_segments(jws) {
        Err(m) => Err(m),
        Ok((h, _, _)) => match base64url_bytes(h) {
            Ok(b) => Ok(b),
            Err(_) => Err("receipt: header not base64url"@),
        },
    }
}

/// The JSON text of the claims of a receipt, or what is wrong with it.
pub open spec fn receipt_payload(jws: Seq<char>) -> Result<Seq<u8>, Seq<char>> {
    match receipt_segments(jws) {
        Err(m) => Err(m),
        Ok((_, p, _)) => match base64url_bytes(p) {
            Ok(b) => Ok(b),
            Err(_) => Err("receipt: payload not base64url"@),
        },
    }
}

/// The JSON text of the header of a receipt.
pub fn receipt_header_bytes(jws: &str) -> (r: Result<Vec<u8>, String>)
    ensures
        match r {
            Ok(b) => receipt_header(jws@) == Ok::<Seq<u8>, Seq<char>>(b@),
            Err(m) => receipt_header(jws@) == Err::<Seq<u8>, Seq<char>>(m@),
        },
{
    match split_receipt(jws) {
        Err(m) => Err(m),
        Ok((h, _, _)) => match base64url_decode(h) {
            Ok(b) => Ok(b),
            Err(_) => Err(String::from_str("receipt: header not base64url")),
        },
    }
}

/// The JSON text of the claims of a receipt.
pub fn receipt_payload_bytes(jws: &str) -> (r: Result<Vec<u8>, String>)
    ensures
        match r {
            Ok(b) => receipt_payload(jws@) == Ok::<Seq<u8>, Seq<char>>(b@),
            Err(m) => receipt_payload(jws@) == Err::<Seq<u8>, Seq<char>>(m@),
        },
{
    match split_receipt(jws) {
        Err(m) => Err(m),
        Ok((_, p, _)) => match base64url_decode(p) {
            Ok(b) => Ok(b),
            Err(_) => Err(String::from_str("receipt: payload not base64url")),
        },
    }
}

/// Why the signature of a receipt does not hold.
pub open spec fn receipt_signature_refusal(key: Seq<u8>, jws: Seq<char>) -> Option<Seq<char>> {
    let (h, p, s) = receipt_segments(jws)->Ok_0;
    match base64url_bytes(s) {
        Err(_) => Some("receipt: signature not base64url"@),
        Ok(sig) => if sig.len() != 64 {
            Some("receipt: Ed25519 signature must be 64 bytes, got "@ + nat_text(sig.len()))
        } else if !signature_accepted(key, encode_utf8(signing_text(h, p)), sig) {
            Some("receipt: signature did not verify"@)
        } else {
            None
        },
    }
}

/// Why a receipt is refused, in the order of the checks. `header` and `claims`
/// are what the JSON reader made of the first two segments.
pub open spec fn receipt_refusal(
    kid: Seq<char>,
    key: Seq<u8>,
    jws: Seq<char>,
    header: Result<JwsHeader, String>,
    claims: Result<ReceiptClaims, String>,
    body: Option<Seq<u8>>,
) -> Option<Seq<char>> {
    if receipt_header(jws) matches Err(m) {
        Some(receipt_header(jws)->Err_0)
    } else if header is Err {
        Some("receipt: header JSON: "@ + header->Err_0@)
    } else if header->Ok_0.alg@ != "EdDSA"@ {
        Some("receipt: unsupported alg `"@ + header->Ok_0.alg@ + "`"@)
    } else if header->Ok_0.kid@ != kid {
        Some(
            "receipt: kid `"@ + header->Ok_0.kid@ + "` does not match handler key `"@ + kid + "`"@,
        )
    } else if receipt_signature_refusal(key, jws) is Some {
        receipt_signature_refusal(key, jws)
    } else if receipt_payload(jws) is Err {
        Some(receipt_payload(jws)->Err_0)
    } else if claims is Err {
        Some("receipt: claims JSON: "@ + claims->Err_0@)
    } else if body matches Some(b) && claims->Ok_0.icp.body_digest@ != digest_claim(b) {
        Some(
            "receipt: body_digest `"@ + claims->Ok_0.icp.body_digest@ + "` does not match expected `"@
                + digest_claim(body->0) + "`"@,
        )
    } else {
        None
    }
}

/// The bytes of an optional slice.
pub open spec fn opt_bytes(o: Option<&[u8]>) -> Option<Seq<u8>> {
    match o {
        Some(b) => Some(b@),
        None => None,
    }
}

impl ReceiptSigner {
    fn check_signature(&self, jws: &str) -> (r: Result<(), String>)
        requires
            receipt_segments(jws@) is Ok,
        ensures
            match r {
                Ok(()) => receipt_signature_refusal(public_key(self.secret()), jws@) is None,
                Err(m) => receipt_signature_refusal(public_key(self.secret()), jws@) == Some(m@),
            },
    {
        let (h, p, s) = match split_receipt(jws) {
            Ok(t) => t,
            Err(m) => {
                return Err(m);
            },
        };
        let sig = match base64url_decode(s) {
            Ok(b) => b,
            Err(_) => {
                return Err(String::from_str("receipt: signature not base64url"));
            },
        };
        if sig.len() != 64 {
            let n = nat_to_text(sig.len() as u128);
            return Err(
                join2("receipt: Ed25519 signature must be 64 bytes, got ", n.as_str()),
            );
        }
        let input = signing_input(h, p);
        let key = self.seed.public();
        if key.accepts(input.as_str().as_bytes(), &sig) {
            Ok(())
        } else {
            Err(String::from_str("receipt: signature did not verify"))
        }
    }

    /// Checks a receipt of this signer and, when a body is given, that it is the
    /// body the receipt was signed over. `header` and `claims` are what the JSON
    /// reader made of [`receipt_header_bytes`] and [`receipt_payload_bytes`].
    pub fn verify_receipt(
        &self,
        compact_jws: &str,
        header: Result<JwsHeader, String>,
        claims: Result<ReceiptClaims, String>,
        expected_body_json: Option<&[u8]>,
    ) -> (r: Result<ReceiptClaims, String>)
        ensures
            ({
                let refusal = receipt_refusal(
                    self.kid@,
                    public_key(self.secret()),
                    compact_jws@,
                    header,
                    claims,
                    opt_bytes(expected_body_json),
                );
                match r {
                    Ok(c) => refusal is None && claims == Ok::<ReceiptClaims, String>(c),
                    Err(m) => refusal == Some(m@),
                }
            }),
    {
        match receipt_header_bytes(compact_jws) {
            Ok(_) => {},
            Err(m) => {
                return Err(m);
            },
        }
        let header = match header {
            Ok(h) => h,
            Err(m) => {
                return Err(join2("receipt: header JSON: ", m.as_str()));
            },
        };
        if !str_eq(header.alg.as_str(), "EdDSA") {
            return Err(join3("receipt: unsupported alg `", header.alg.as_str(), "`"));
        }
        if !str_eq(header.kid.as_str(), self.kid.as_str()) {
            return Err(
                join5(
                    "receipt: kid `",
                    header.kid.as_str(),
                    "` does not match handler key `",
                    self.kid.as_str(),
                    "`",
                ),
            );
        }
        match self.check_signature(compact_jws) {
            Ok(()) => {},
            Err(m) => {
                return Err(m);
            },
        }
        match receipt_payload_bytes(compact_jws) {
            Ok(_) => {},
            Err(m) => {
                return Err(m);
            },
        }
        let claims = match claims {
            Ok(c) => c,
            Err(m) => {
                return Err(join2("receipt: claims JSON: ", m.as_str()));
            },
        };
        match expected_body_json {
            Some(body) => {
                let digest = body_sha256(body);
                let expected = join2("sha256:", digest.as_str());
                if !str_eq(claims.icp.body_digest.as_str(), expected.as_str()) {
                    return Err(
                        join5(
                            "receipt: body_digest `",
                            claims.icp.body_digest.as_str(),
                            "` does not match expected `",
                            expected.as_str(),
                            "`",
                        ),
                    );
                }
            },
            None => {},
        }
        Ok(claims)
    }
}

// ---------------------------------------------------------------------------
// The signed receipt
// ---------------------------------------------------------------------------

/// The JSON text of the header of a signer's receipts.
pub open spec fn header_text(kid: Seq<char>) -> Seq<char> {
    "{\"alg\":\"EdDSA\",\"typ\":\"JWT\",\"kid\":"@ + json_text(JsonView::Str(kid)) + "}"@
}

/// Whether this is the receipt of a signer over claims: the header and the canonical
/// claims under the signature. It can be taken apart again, and the signer accepts it for
/// every reader that reads its own header and claims of the body at hand.
pub open spec fn attests(
    kid: Seq<char>,
    secret: Seq<u8>,
    claims: ReceiptClaims,
    jws: Seq<char>,
) -> bool {
    let header = encode_utf8(header_text(kid));
    let payload = canonical_bytes(claims_document(claims));
    &&& payload is Ok
    &&& jws == signed_text(secret, header, payload->Ok_0)
    &&& receipt_header(jws) == Ok::<Seq<u8>, Seq<char>>(header)
    &&& receipt_payload(jws) == Ok::<Seq<u8>, Seq<char>>(payload->Ok_0)
    &&& forall|h: JwsHeader, read: ReceiptClaims, body: Option<Seq<u8>>|
        h.alg@ == "EdDSA"@ && h.kid@ == kid && (body matches Some(b) ==> read.icp.body_digest@
            == digest_claim(b)) ==> #[trigger] receipt_refusal(
            kid,
            public_key(secret),
            jws,
            Ok::<JwsHeader, String>(h),
            Ok::<ReceiptClaims, String>(read),
            body,
        ) is None
}

impl ReceiptSigner {
    fn header_json(&self) -> (r: String)
        ensures
            r@ == header_text(self.kid@),
    {
        let kid = Json::Str(self.kid.clone()).to_text();
        join3("{\"alg\":\"EdDSA\",\"typ\":\"JWT\",\"kid\":", kid.as_str(), "}")
    }

    /// Signs claims, in their canonical form. The receipt passes
    /// [`ReceiptSigner::verify_receipt`] of the same signer.
    pub fn sign_receipt(&self, claims: ReceiptClaims) -> (r: Result<SignedReceipt, SigningError>)
        ensures
            match r {
                Ok(x) => {
                    &&& attests(self.kid@, self.secret(), claims, x.jws@)
                    &&& x.jti == claims.jti
                    &&& x.kid == self.kid
                    &&& x.body_digest == claims.icp.body_digest
                    &&& x.claims == claims
                },
                Err(e) => {
                    &&& canonical_bytes(claims_document(claims)) matches Err(m)
                    &&& e@ == SigningErrorView::Canonicalization(m)
                },
            },
    {
        let claims_json = match claims_json(&claims).to_canonical() {
            Ok(b) => b,
            Err(m) => {
                return Err(SigningError::Canonicalization(m));
            },
        };
        let header = self.header_json();
        let header_b64 = base64url_encode(header.as_str().as_bytes());
        let payload_b64 = base64url_encode(claims_json.as_slice());
        let input = signing_input(header_b64.as_str(), payload_b64.as_str());
        let signature = self.seed.sign(input.as_str().as_bytes());
        let sig_b64 = base64url_encode(signature.as_slice());
        let jws = join3(input.as_str(), ".", sig_b64.as_str());
        proof {
            assert(dotless(header_b64@) && dotless(payload_b64@) && dotless(sig_b64@));
            law_segments_of_compact(header_b64@, payload_b64@, sig_b64@);
            assert(receipt_segments(jws@) == Ok::<(Seq<char>, Seq<char>, Seq<char>), Seq<char>>(
                (header_b64@, payload_b64@, sig_b64@),
            ));
        }
        Ok(
            SignedReceipt {
                jti: claims.jti.clone(),
                kid: self.kid.clone(),
                jws,
                body_digest: claims.icp.body_digest.clone(),
                claims,
            },
        )
    }
}

/// A receipt is accepted exactly when its header can be read and says `EdDSA` and the key of
/// the handler, its signature is by that key over the first two segments, its claims can be
/// read, and, where a body is given, they hold the digest of that body.
pub proof fn law_receipts_are_accepted_for_what_they_attest(
    kid: Seq<char>,
    key: Seq<u8>,
    h: Seq<char>,
    p: Seq<char>,
    s: Seq<char>,
    header: Result<JwsHeader, String>,
    claims: Result<ReceiptClaims, String>,
    body: Option<Seq<u8>>,
)
    requires
        dotless(h),
        dotless(p),
        dotless(s),
    ensures
        receipt_refusal(kid, key, h + "."@ + p + "."@ + s, header, claims, body) is None <==> {
            &&& base64url_bytes(h) is Ok && base64url_bytes(p) is Ok
            &&& header matches Ok(hd) && hd.alg@ == "EdDSA"@ && hd.kid@ == kid
            &&& base64url_bytes(s) matches Ok(sig) && sig.len() == 64 && signature_accepted(
                key,
                encode_utf8(h + "."@ + p),
                sig,
            )
            &&& claims matches Ok(c) && (body matches Some(b) ==> c.icp.body_digest@ == "sha256:"@
                + hex_text(sha256(b)))
        },
{
    law_segments_of_compact(h, p, s);
    assert(h + "."@ + p + "."@ + s =~= compact_text(h, p, s));
}

/// A text without three segments is no receipt.
pub proof fn law_receipts_have_three_segments(
    kid: Seq<char>,
    key: Seq<u8>,
    jws: Seq<char>,
    header: Result<JwsHeader, String>,
    claims: Result<ReceiptClaims, String>,
    body: Option<Seq<u8>>,
)
    requires
        split_all(jws, '.').len() != 3,
    ensures
        receipt_refusal(kid, key, jws, header, claims, body) is Some,
        receipt_header(jws) is Err,
        receipt_payload(jws) is Err,
{
}

/// A receipt is the header, the claims and the signature over both, in this order and with
/// dots between them: its first two segments read back as what was signed.
pub proof fn law_receipts_hold_what_was_signed(
    kid: Seq<char>,
    secret: Seq<u8>,
    claims: ReceiptClaims,
    jws: Seq<char>,
)
    requires
        attests(kid, secret, claims, jws),
    ensures
        ({
            let h = base64url_text(
                encode_utf8(
                    "{\"alg\":\"EdDSA\",\"typ\":\"JWT\",\"kid\":"@ + json_text(JsonView::Str(kid))
                        + "}"@,
                ),
            );
            let p = base64url_text(canonical_bytes(claims_document(claims))->Ok_0);
            &&& jws == h + "."@ + p + "."@ + base64url_text(
                signature_of(secret, encode_utf8(h + "."@ + p)),
            )
            &&& receipt_payload(jws) == canonical_bytes(claims_document(claims))
        }),
{
}

/// The published key says what it is for and holds the public half of the signing key.
pub proof fn law_published_keys_say_what_they_are(kid: Seq<char>, key: Seq<u8>)
    ensures
        jwk_document(kid, key).member("kty"@) == Some(JsonView::Str("OKP"@)),
        jwk_document(kid, key).member("crv"@) == Some(JsonView::Str("Ed25519"@)),
        jwk_document(kid, key).member("kid"@) == Some(JsonView::Str(kid)),
        jwk_document(kid, key).member("alg"@) == Some(JsonView::Str("EdDSA"@)),
        jwk_document(kid, key).member("use"@) == Some(JsonView::Str("sig"@)),
        jwk_document(kid, key).member("x"@) == Some(JsonView::Str(base64url_text(key))),
{
    let m = jwk_document(kid, key)->Object_0;
    reveal_strlit("kty");
    reveal_strlit("crv");
    reveal_strlit("kid");
    reveal_strlit("alg");
    reveal_strlit("use");
    reveal_strlit("x");
    assert("kty"@[1] == 't' && "crv"@[0] == 'c' && "kid"@[1] == 'i' && "alg"@[0] == 'a' && "use"@[0]
        == 'u' && "x"@.len() == 1 && "kty"@[0] == 'k' && "kid"@[0] == 'k');
    assert(m[0].0 == "kty"@ && m[1].0 == "crv"@ && m[2].0 == "kid"@ && m[3].0 == "alg"@ && m[4].0
        == "use"@);
    assert(m[0].0.len() == 3 && m[1].0.len() == 3 && m[2].0.len() == 3 && m[3].0.len() == 3
        && m[4].0.len() == 3);
    lemma_member_found(m, "kty"@, 0, 0);
    lemma_member_found(m, "crv"@, 0, 1);
    lemma_member_found(m, "kid"@, 0, 2);
    lemma_member_found(m, "alg"@, 0, 3);
    lemma_member_found(m, "use"@, 0, 4);
    lemma_member_found(m, "x"@, 0, 5);
}

/// The body of a PEM text is its lines without white space around them, one after the other;
/// blank lines and those that open or close it do not count.
pub proof fn law_pem_bodies_are_their_inner_lines(lines: Seq<Seq<char>>, line: Seq<char>)
    ensures
        pem_lines(Seq::empty()) == Seq::<char>::empty(),
        ({
            let kept = trimmed(line);
            let outer = kept.len() == 0 || has_prefix(kept, "-----BEGIN "@) || has_prefix(
                kept,
                "-----END "@,
            );
            &&& outer ==> pem_lines(lines.push(line)) == pem_lines(lines)
            &&& !outer ==> pem_lines(lines.push(line)) == pem_lines(lines) + kept
        }),
{
    assert(lines.push(line).drop_last() =~= lines);
}

} // verus!
