//! Encodings, digests and Ed25519 keys.
//!
//! What the encoders and the signature scheme compute is named here, one name
//! for each outside function; the rest of the library speaks of these names.

use vstd::prelude::*;

verus! {

// ---------------------------------------------------------------------------
// Encodings
// ---------------------------------------------------------------------------

/// The bytes that a base64url text without padding stands for, or the message
/// of the decoder.
pub uninterp spec fn base64url_bytes(text: Seq<char>) -> Result<Seq<u8>, Seq<char>>;

/// The base64url text of some bytes, without padding.
pub uninterp spec fn base64url_text(bytes: Seq<u8>) -> Seq<char>;

/// `base64::engine::general_purpose::URL_SAFE_NO_PAD.decode`: the decoded bytes
/// or the text of the error, a function of the text alone.
#[verifier::external_body]
pub(crate) fn base64url_decode(text: &str) -> (r: Result<Vec<u8>, String>)
    ensures
        match r {
            Ok(b) => base64url_bytes(text@) == Ok::<Seq<u8>, Seq<char>>(b@),
            Err(m) => base64url_bytes(text@) == Err::<Seq<u8>, Seq<char>>(m@),
        },
{
    base64::Engine::decode(&base64::engine::general_purpose::URL_SAFE_NO_PAD, text).map_err(
        |e| e.to_string(),
    )
}

/// `base64::engine::general_purpose::URL_SAFE_NO_PAD.encode`: the text is a
/// function of the bytes, decodes to them again, and has no `.` in it, since
/// the URL-safe alphabet has none.
#[verifier::external_body]
pub(crate) fn base64url_encode(bytes: &[u8]) -> (r: String)
    ensures
        r@ == base64url_text(bytes@),
        base64url_bytes(r@) is Ok && base64url_bytes(r@)->Ok_0 == bytes@,
        forall|i: int| 0 <= i < r@.len() ==> #[trigger] r@[i] != '.',
{
    base64::Engine::encode(&base64::engine::general_purpose::URL_SAFE_NO_PAD, bytes)
}

/// The bytes that a padded base64 text stands for, or the message of the
/// decoder.
pub uninterp spec fn base64_bytes(text: Seq<char>) -> Result<Seq<u8>, Seq<char>>;

/// `base64::engine::general_purpose::STANDARD.decode`: the decoded bytes or the
/// text of the error, a function of the text alone.
#[verifier::external_body]
pub(crate) fn base64_decode(text: &str) -> (r: Result<Vec<u8>, String>)
    ensures
        match r {
            Ok(b) => base64_bytes(text@) == Ok::<Seq<u8>, Seq<char>>(b@),
            Err(m) => base64_bytes(text@) == Err::<Seq<u8>, Seq<char>>(m@),
        },
{
    base64::Engine::decode(&base64::engine::general_purpose::STANDARD, text).map_err(
        |e| e.to_string(),
    )
}

/// The bytes that a base58btc text stands for, or the message of the decoder.
pub uninterp spec fn base58_bytes(text: Seq<char>) -> Result<Seq<u8>, Seq<char>>;

/// The base58btc text of some bytes.
pub uninterp spec fn base58_text(bytes: Seq<u8>) -> Seq<char>;

/// `bs58::decode(..).into_vec()`: the decoded bytes or the text of the error, a
/// function of the text alone.
#[verifier::external_body]
pub(crate) fn base58_decode(text: &str) -> (r: Result<Vec<u8>, String>)
    ensures
        match r {
            Ok(b) => base58_bytes(text@) == Ok::<Seq<u8>, Seq<char>>(b@),
            Err(m) => base58_bytes(text@) == Err::<Seq<u8>, Seq<char>>(m@),
        },
{
    bs58::decode(text).into_vec().map_err(|e| e.to_string())
}

/// `bs58::encode(..).into_string()`: the text is a function of the bytes and
/// decodes to them again.
#[verifier::external_body]
pub(crate) fn base58_encode(bytes: &[u8]) -> (r: String)
    ensures
        r@ == base58_text(bytes@),
        base58_bytes(r@) is Ok && base58_bytes(r@)->Ok_0 == bytes@,
{
    bs58::encode(bytes).into_string()
}

/// The lower-case hexadecimal digit for a value below sixteen.
pub open spec fn hex_digit(n: int) -> char {
    if n < 10 {
        (('0' as u32 + n) as u32) as char
    } else {
        (('a' as u32 + (n - 10)) as u32) as char
    }
}

/// Two lower-case hexadecimal digits for each byte.
pub open spec fn hex_text(bytes: Seq<u8>) -> Seq<char> {
    Seq::new(
        2 * bytes.len(),
        |i: int|
            if i % 2 == 0 {
                hex_digit(bytes[i / 2] as int / 16)
            } else {
                hex_digit(bytes[i / 2] as int % 16)
            },
    )
}

fn to_hex_digit(n: u8) -> (c: char)
    requires
        n < 16,
    ensures
        c == hex_digit(n as int),
{
    if n < 10 {
        (48 + n) as char
    } else {
        (97 + (n - 10)) as char
    }
}

/// Two lower-case hexadecimal digits for each byte.
pub(crate) fn hex_encode(bytes: &[u8]) -> (r: String)
    ensures
        r@ == hex_text(bytes@),
{
    let mut s = String::new();
    let mut i: usize = 0;
    while i < bytes.len()
        invariant
            i <= bytes@.len(),
            s@.len() == 2 * i,
            forall|j: int| 0 <= j < 2 * i ==> #[trigger] s@[j] == hex_text(bytes@)[j],
        decreases bytes@.len() - i,
    {
        let b: u8 = bytes[i];
        assert(hex_text(bytes@)[2 * i as int] == hex_digit(b as int / 16));
        assert(hex_text(bytes@)[2 * i as int + 1] == hex_digit(b as int % 16));
        s.push(to_hex_digit(b / 16));
        s.push(to_hex_digit(b % 16));
        i += 1;
    }
    assert(s@ =~= hex_text(bytes@));
    s
}

// ---------------------------------------------------------------------------
// Digests
// ---------------------------------------------------------------------------

/// The SHA-256 digest of some bytes.
pub uninterp spec fn sha256(bytes: Seq<u8>) -> Seq<u8>;

/// `sha2::Sha256::digest`: 32 bytes that are a function of the input.
#[verifier::external_body]
pub(crate) fn sha256_digest(bytes: &[u8]) -> (r: Vec<u8>)
    ensures
        r@ == sha256(bytes@),
        r@.len() == 32,
{
    <sha2::Sha256 as sha2::Digest>::digest(bytes).to_vec()
}

/// The SHA-256 digest of some bytes, in hexadecimal.
pub open spec fn sha256_hex(bytes: Seq<u8>) -> Seq<char> {
    hex_text(sha256(bytes))
}

/// The SHA-256 digest of some bytes, in hexadecimal.
pub fn body_sha256(body: &[u8]) -> (r: String)
    ensures
        r@ == sha256_hex(body@),
{
    let digest = sha256_digest(body);
    hex_encode(digest.as_slice())
}

// ---------------------------------------------------------------------------
// Ed25519
// ---------------------------------------------------------------------------

/// Why 32 bytes are no Ed25519 public key; nothing when they are one.
pub uninterp spec fn key_defect(bytes: Seq<u8>) -> Option<Seq<char>>;

/// Whether a signature over a message verifies under a public key.
pub uninterp spec fn signature_accepted(key: Seq<u8>, message: Seq<u8>, signature: Seq<u8>) -> bool;

/// The public key of a secret seed.
pub uninterp spec fn public_key(seed: Seq<u8>) -> Seq<u8>;

/// The signature over a message with a secret seed.
pub uninterp spec fn signature_of(seed: Seq<u8>, message: Seq<u8>) -> Seq<u8>;

/// The seed in a PKCS #8 document, or the message of the reader.
pub uninterp spec fn pkcs8_secret(der: Seq<u8>) -> Result<Seq<u8>, Seq<char>>;

/// `ed25519_dalek::VerifyingKey::from_bytes`: whether 32 bytes are a public key,
/// and the text of the error otherwise, a function of the bytes alone.
#[verifier::external_body]
fn check_key(bytes: &Vec<u8>) -> (r: Result<(), String>)
    requires
        bytes@.len() == 32,
    ensures
        match r {
            Ok(()) => key_defect(bytes@) is None,
            Err(m) => key_defect(bytes@) == Some(m@),
        },
{
    let key: [u8; 32] = bytes.as_slice().try_into().map_err(|_| String::new())?;
    ed25519_dalek::VerifyingKey::from_bytes(&key).map(|_| ()).map_err(|e| e.to_string())
}

/// `ed25519_dalek::VerifyingKey::verify`: whether the signature verifies, a
/// function of key, message and signature.
#[verifier::external_body]
fn verify(key: &Vec<u8>, message: &[u8], signature: &Vec<u8>) -> (r: bool)
    requires
        key@.len() == 32,
        key_defect(key@) is None,
        signature@.len() == 64,
    ensures
        r == signature_accepted(key@, message@, signature@),
{
    let key: [u8; 32] = key.as_slice().try_into().unwrap_or([0; 32]);
    let bytes: [u8; 64] = signature.as_slice().try_into().unwrap_or([0; 64]);
    let signature = ed25519_dalek::Signature::from_bytes(&bytes);
    match ed25519_dalek::VerifyingKey::from_bytes(&key) {
        Ok(key) => ed25519_dalek::Verifier::verify(&key, message, &signature).is_ok(),
        Err(_) => false,
    }
}

/// `ed25519_dalek::SigningKey::verifying_key`: the public key is a function of
/// the seed, and is a public key.
#[verifier::external_body]
fn derive_public(seed: &Vec<u8>) -> (r: Vec<u8>)
    requires
        seed@.len() == 32,
    ensures
        r@ == public_key(seed@),
        r@.len() == 32,
        key_defect(r@) is None,
{
    let seed: [u8; 32] = seed.as_slice().try_into().unwrap_or([0; 32]);
    ed25519_dalek::SigningKey::from_bytes(&seed).verifying_key().to_bytes().to_vec()
}

/// `ed25519_dalek::SigningKey::sign`: 64 bytes that are a function of seed and
/// message, and that verify under the public key of the seed.
#[verifier::external_body]
fn sign(seed: &Vec<u8>, message: &[u8]) -> (r: Vec<u8>)
    requires
        seed@.len() == 32,
    ensures
        r@ == signature_of(seed@, message@),
        r@.len() == 64,
        signature_accepted(public_key(seed@), message@, r@),
{
    let seed: [u8; 32] = seed.as_slice().try_into().unwrap_or([0; 32]);
    let key = ed25519_dalek::SigningKey::from_bytes(&seed);
    ed25519_dalek::Signer::sign(&key, message).to_bytes().to_vec()
}

/// `ed25519_dalek::SigningKey::generate` with the random numbers of the
/// operating system: 32 bytes, of which nothing else is known.
#[verifier::external_body]
fn random_seed() -> (r: Vec<u8>)
    ensures
        r@.len() == 32,
{
    ed25519_dalek::SigningKey::generate(&mut rand::rngs::OsRng).to_bytes().to_vec()
}

/// `ed25519_dalek::SigningKey::from_pkcs8_der`: the 32 bytes of the seed or the
/// text of the error, a function of the document alone.
#[verifier::external_body]
fn read_pkcs8(der: &[u8]) -> (r: Result<Vec<u8>, String>)
    ensures
        match r {
            Ok(seed) => pkcs8_secret(der@) == Ok::<Seq<u8>, Seq<char>>(seed@) && seed@.len() == 32,
            Err(m) => pkcs8_secret(der@) == Err::<Seq<u8>, Seq<char>>(m@),
        },
{
    <ed25519_dalek::SigningKey as ed25519_dalek::pkcs8::DecodePrivateKey>::from_pkcs8_der(der).map(
        |key| key.to_bytes().to_vec(),
    ).map_err(|e| e.to_string())
}

/// An Ed25519 public key.
#[derive(Debug)]
pub struct PublicKey {
    bytes: Vec<u8>,
}

impl View for PublicKey {
    type V = Seq<u8>;

    closed spec fn view(&self) -> Seq<u8> {
        self.bytes@
    }
}

impl PublicKey {
    #[verifier::type_invariant]
    spec fn inv(self) -> bool {
        self.bytes@.len() == 32 && key_defect(self.bytes@) is None
    }

    /// The key with these bytes, when they are one.
    pub fn from_bytes(bytes: Vec<u8>) -> (r: Result<PublicKey, String>)
        requires
            bytes@.len() == 32,
        ensures
            match r {
                Ok(k) => k@ == bytes@ && key_defect(bytes@) is None,
                Err(m) => key_defect(bytes@) == Some(m@),
            },
    {
        match check_key(&bytes) {
            Ok(()) => Ok(PublicKey { bytes }),
            Err(m) => Err(m),
        }
    }

    /// The 32 bytes of the key.
    pub fn to_bytes(&self) -> (r: Vec<u8>)
        ensures
            r@ == self@,
            r@.len() == 32,
            key_defect(r@) is None,
    {
        proof {
            use_type_invariant(self);
        }
        let r = self.bytes.clone();
        assert(r@ =~= self.bytes@);
        r
    }

    /// A copy of the key.
    pub fn copy(&self) -> (r: PublicKey)
        ensures
            r@ == self@,
    {
        let bytes = self.to_bytes();
        PublicKey { bytes }
    }

    /// Whether a signature over a message verifies under this key.
    pub fn accepts(&self, message: &[u8], signature: &Vec<u8>) -> (r: bool)
        requires
            signature@.len() == 64,
        ensures
            r == signature_accepted(self@, message@, signature@),
    {
        proof {
            use_type_invariant(self);
        }
        verify(&self.bytes, message, signature)
    }
}

/// The secret half of an Ed25519 key pair.
pub struct SecretSeed {
    bytes: Vec<u8>,
}

impl View for SecretSeed {
    type V = Seq<u8>;

    closed spec fn view(&self) -> Seq<u8> {
        self.bytes@
    }
}

impl SecretSeed {
    #[verifier::type_invariant]
    spec fn inv(self) -> bool {
        self.bytes@.len() == 32
    }

    /// A seed that nobody can predict.
    pub fn generate() -> (r: SecretSeed)
        ensures
            r@.len() == 32,
    {
        let bytes = random_seed();
        SecretSeed { bytes }
    }

    /// The seed in a PKCS #8 document.
    pub fn from_pkcs8(der: &[u8]) -> (r: Result<SecretSeed, String>)
        ensures
            match r {
                Ok(s) => pkcs8_secret(der@) == Ok::<Seq<u8>, Seq<char>>(s@),
                Err(m) => pkcs8_secret(der@) == Err::<Seq<u8>, Seq<char>>(m@),
            },
    {
        match read_pkcs8(der) {
            Ok(bytes) => Ok(SecretSeed { bytes }),
            Err(m) => Err(m),
        }
    }

    /// The public key of the pair.
    pub fn public(&self) -> (r: PublicKey)
        ensures
            r@ == public_key(self@),
    {
        proof {
            use_type_invariant(self);
        }
        let bytes = derive_public(&self.bytes);
        PublicKey { bytes }
    }

    /// The signature over a message. It verifies under the public key.
    pub fn sign(&self, message: &[u8]) -> (r: Vec<u8>)
        ensures
            r@ == signature_of(self@, message@),
            r@.len() == 64,
            signature_accepted(public_key(self@), message@, r@),
    {
        proof {
            use_type_invariant(self);
        }
        sign(&self.bytes, message)
    }
}

// ---------------------------------------------------------------------------
// Identifiers
// ---------------------------------------------------------------------------

/// Whether the text is 32 lower-case hexadecimal digits.
pub open spec fn is_uuid_text(s: Seq<char>) -> bool {
    s.len() == 32 && forall|i: int|
        0 <= i < 32 ==> ('0' <= #[trigger] s[i] <= '9' || 'a' <= s[i] <= 'f')
}

/// `uuid::Uuid::new_v4().simple()`: 32 lower-case hexadecimal digits, of which
/// nothing else is known.
#[verifier::external_body]
fn random_uuid() -> (r: String)
    ensures
        is_uuid_text(r@),
{
    uuid::Uuid::new_v4().simple().to_string()
}

/// Whether the text is the prefix followed by a random part.
pub open spec fn is_fresh_id(id: Seq<char>, prefix: Seq<char>) -> bool {
    exists|u: Seq<char>| is_uuid_text(u) && id == prefix + u
}

/// The prefix followed by a random part.
pub fn fresh_id(prefix: &str) -> (r: String)
    ensures
        is_fresh_id(r@, prefix@),
{
    let tail = random_uuid();
    let mut s = String::from_str(prefix);
    s.append(tail.as_str());
    assert(is_uuid_text(tail@) && s@ == prefix@ + tail@);
    s
}

} // verus!
