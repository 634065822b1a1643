//! Digests, text encodings, signatures, identifiers and the clock, as the
//! outside crates provide them, and the service's signer built on them.
use vstd::prelude::*;
use base64::Engine as _;
use ed25519_dalek::Verifier as _;
use sha2::Digest as _;

verus! {

/// What SHA-256 yields for the given bytes.
pub uninterp spec fn sha256_of(data: Seq<u8>) -> Seq<u8>;

/// The digit of the standard base64 alphabet for a 6-bit value.
pub open spec fn base64_digit(v: u8) -> char {
    "ABCDEFGHIJKLMNOPQRSTUVWXYZabcdefghijklmnopqrstuvwxyz0123456789+/"@[v as int]
}

/// Standard base64 with padding: each group of three bytes becomes four
/// digits, and a final group of one or two bytes is padded with `=`.
pub open spec fn base64_of(data: Seq<u8>) -> Seq<char>
    decreases data.len(),
{
    if data.len() == 0 {
        Seq::empty()
    } else if data.len() == 1 {
        seq![base64_digit(data[0] >> 2u8), base64_digit((data[0] & 3u8) << 4u8), '=', '=']
    } else if data.len() == 2 {
        seq![
            base64_digit(data[0] >> 2u8),
            base64_digit(((data[0] & 3u8) << 4u8) | (data[1] >> 4u8)),
            base64_digit((data[1] & 15u8) << 2u8),
            '=',
        ]
    } else {
        seq![
            base64_digit(data[0] >> 2u8),
            base64_digit(((data[0] & 3u8) << 4u8) | (data[1] >> 4u8)),
            base64_digit(((data[1] & 15u8) << 2u8) | (data[2] >> 6u8)),
            base64_digit(data[2] & 63u8),
        ] + base64_of(data.subrange(3, data.len() as int))
    }
}

/// Base64 text has four digits for every started group of three bytes.
pub proof fn lemma_base64_len(data: Seq<u8>)
    ensures
        base64_of(data).len() == 4 * ((data.len() + 2) / 3),
    decreases data.len(),
{
    if data.len() >= 3 {
        lemma_base64_len(data.subrange(3, data.len() as int));
    }
}

/// The Ed25519 public key that belongs to a 32-byte secret key.
pub uninterp spec fn ed25519_public_key(secret: Seq<u8>) -> Seq<u8>;

/// The Ed25519 signature that a 32-byte secret key gives a message.
pub uninterp spec fn ed25519_signature(secret: Seq<u8>, message: Seq<u8>) -> Seq<u8>;

/// Whether Ed25519 verification accepts a signature on a message under a public key.
pub uninterp spec fn ed25519_accepts(public: Seq<u8>, message: Seq<u8>, signature: Seq<u8>) -> bool;

/// Relies on sha2::Sha256 (`Digest::digest`): a 32-byte digest that depends on
/// the input alone.
#[verifier::external_body]
pub(crate) fn sha256(data: &[u8]) -> (r: Vec<u8>)
    ensures
        r@ == sha256_of(data@),
        r@.len() == 32,
{
    sha2::Sha256::digest(data).to_vec()
}

/// Relies on base64's `general_purpose::STANDARD.encode`: the standard alphabet
/// with padding.
#[verifier::external_body]
pub(crate) fn base64_standard(data: &[u8]) -> (r: String)
    requires
        data@.len() <= usize::MAX / 4,
    ensures
        r@ == base64_of(data@),
{
    base64::engine::general_purpose::STANDARD.encode(data)
}

/// Relies on `ed25519_dalek::SecretKey::from_bytes`, which accepts any 32 bytes,
/// and `PublicKey::from(&SecretKey)`: a 32-byte key determined by the secret.
#[verifier::external_body]
pub(crate) fn public_key_of(secret: &[u8]) -> (r: Vec<u8>)
    requires
        secret@.len() == 32,
    ensures
        r@ == ed25519_public_key(secret@),
        r@.len() == 32,
{
    let sk = ed25519_dalek::SecretKey::from_bytes(secret).unwrap();
    ed25519_dalek::PublicKey::from(&sk).to_bytes().to_vec()
}

/// Relies on `ed25519_dalek::ExpandedSecretKey::sign`: Ed25519 signing is
/// deterministic, so the 64-byte signature depends on the key and message alone.
#[verifier::external_body]
pub(crate) fn sign_message(secret: &[u8], message: &[u8]) -> (r: Vec<u8>)
    requires
        secret@.len() == 32,
    ensures
        r@ == ed25519_signature(secret@, message@),
        r@.len() == 64,
{
    let sk = ed25519_dalek::SecretKey::from_bytes(secret).unwrap();
    let pk = ed25519_dalek::PublicKey::from(&sk);
    let expanded = ed25519_dalek::ExpandedSecretKey::from(&sk);
    expanded.sign(message, &pk).to_bytes().to_vec()
}

/// Relies on `ed25519_dalek::PublicKey::verify` (with `PublicKey::from_bytes` and
/// `Signature::from_bytes` rejecting malformed input): a pure check, which accepts
/// every signature that the matching secret key made on the same message.
#[verifier::external_body]
pub(crate) fn signature_accepted(public: &[u8], message: &[u8], signature: &[u8]) -> (r: bool)
    ensures
        r == ed25519_accepts(public@, message@, signature@),
        (exists|secret: Seq<u8>|
            secret.len() == 32 && public@ == #[trigger] ed25519_public_key(secret)
                && signature@ == ed25519_signature(secret, message@)) ==> r,
{
    let pk = match ed25519_dalek::PublicKey::from_bytes(public) {
        Ok(pk) => pk,
        Err(_) => return false,
    };
    let sig = match ed25519_dalek::Signature::from_bytes(signature) {
        Ok(sig) => sig,
        Err(_) => return false,
    };
    pk.verify(message, &sig).is_ok()
}

/// Relies on `uuid::Uuid::new_v4` and `Uuid::as_u128`: a random identifier.
#[verifier::external_body]
pub(crate) fn random_uuid() -> (r: u128) {
    uuid::Uuid::new_v4().as_u128()
}

/// Relies on `chrono::Utc::now` and `DateTime::timestamp`: seconds since the Unix
/// epoch, never later than `DateTime::<Utc>::MAX_UTC` (the last second of year 262142).
#[verifier::external_body]
pub(crate) fn unix_now() -> (r: i64)
    ensures
        r <= 8_210_266_876_799,
{
    chrono::Utc::now().timestamp()
}

/// Base64 text of the SHA-256 digest of some bytes.
pub open spec fn digest_text(data: Seq<u8>) -> Seq<char> {
    base64_of(sha256_of(data))
}

/// Computes the base64 text of the SHA-256 digest of `data`; never empty.
pub fn digest_base64(data: &[u8]) -> (r: String)
    ensures
        r@ == digest_text(data@),
        r@.len() == 44,
{
    let d = sha256(data);
    proof {
        lemma_base64_len(d@);
    }
    base64_standard(d.as_slice())
}

/// The service's signing key, held as its 32 secret bytes and the public key
/// derived from them.
pub struct Signer {
    secret: Vec<u8>,
    public: Vec<u8>,
}

impl Signer {
    pub closed spec fn secret_bytes(&self) -> Seq<u8> {
        self.secret@
    }

    pub closed spec fn public_bytes(&self) -> Seq<u8> {
        self.public@
    }

    pub open spec fn wf(&self) -> bool {
        &&& self.secret_bytes().len() == 32
        &&& self.public_bytes() == ed25519_public_key(self.secret_bytes())
    }

    /// A signer for a 32-byte secret key.
    pub fn from_secret(secret: Vec<u8>) -> (r: Signer)
        requires
            secret@.len() == 32,
        ensures
            r.wf(),
            r.secret_bytes() == secret@,
    {
        let public = public_key_of(secret.as_slice());
        Signer { secret, public }
    }

    /// The public key, which any party may use to check receipts.
    pub fn public_key(&self) -> (r: Vec<u8>)
        ensures
            r@ == self.public_bytes(),
    {
        self.public.clone()
    }

    /// Signs `message`.
    pub fn sign(&self, message: &[u8]) -> (r: Vec<u8>)
        requires
            self.wf(),
        ensures
            r@ == ed25519_signature(self.secret_bytes(), message@),
    {
        sign_message(self.secret.as_slice(), message)
    }
}

/// Checks `signature` on `message` under `public`; accepts whatever the matching
/// secret key signed.
pub fn verify_signature(public: &[u8], message: &[u8], signature: &[u8]) -> (r: bool)
    ensures
        r == ed25519_accepts(public@, message@, signature@),
        forall|secret: Seq<u8>|
            secret.len() == 32 && public@ == #[trigger] ed25519_public_key(secret)
                && signature@ == ed25519_signature(secret, message@) ==> r,
{
    signature_accepted(public, message, signature)
}

} // verus!
