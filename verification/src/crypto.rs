//! Calls into the base64, hex, sha2, ed25519-dalek and rand crates, and into std's
//! Unicode case mapping and clock. Each item's contract is what the library relies on.
use vstd::prelude::*;
use crate::encoding::{b64_standard, b64_url_no_pad, hex_lower};

verus! {

/// What standard base64 decoding (padding required, canonical trailing bits) makes of `s`.
pub uninterp spec fn b64_standard_decoded(s: Seq<char>) -> Option<Seq<u8>>;

/// The SHA-256 digest of `d`.
pub uninterp spec fn sha256_of(d: Seq<u8>) -> Seq<u8>;

/// The Ed25519 public key for the 32-byte secret key `secret`.
pub uninterp spec fn ed25519_public_of(secret: Seq<u8>) -> Seq<u8>;

/// The Ed25519 signature of `msg` under the 32-byte secret key `secret`.
pub uninterp spec fn ed25519_signature_of(secret: Seq<u8>, msg: Seq<u8>) -> Seq<u8>;

/// The Unicode lowercase mapping of `c` (one or more characters).
pub uninterp spec fn lowercase_of(c: char) -> Seq<char>;

/// The view of an optional byte vector.
pub open spec fn opt_bytes(v: Option<Vec<u8>>) -> Option<Seq<u8>> {
    match v {
        Some(b) => Some(b@),
        None => None,
    }
}

/// `base64::engine::general_purpose::STANDARD.encode`: standard alphabet, `=` padding.
/// The same engine decodes its output back to `data` (it writes canonical padding and
/// trailing bits, which its decoder requires).
#[verifier::external_body]
pub(crate) fn base64_standard_encode(data: &[u8]) -> (r: String)
    ensures
        r@ == b64_standard(data@),
        b64_standard_decoded(r@) == Some(data@),
{
    base64::Engine::encode(&base64::engine::general_purpose::STANDARD, data)
}

/// `base64::engine::general_purpose::URL_SAFE_NO_PAD.encode`: `-`/`_` alphabet, no padding.
#[verifier::external_body]
pub(crate) fn base64_url_encode(data: &[u8]) -> (r: String)
    ensures
        r@ == b64_url_no_pad(data@),
{
    base64::Engine::encode(&base64::engine::general_purpose::URL_SAFE_NO_PAD, data)
}

/// `base64::engine::general_purpose::STANDARD.decode` of the UTF-8 bytes of `s`, with
/// errors as `None`. The result is a function of `s`.
#[verifier::external_body]
pub(crate) fn base64_standard_decode(s: &str) -> (r: Option<Vec<u8>>)
    ensures
        opt_bytes(r) == b64_standard_decoded(s@),
{
    base64::Engine::decode(&base64::engine::general_purpose::STANDARD, s.as_bytes()).ok()
}

/// `sha2::Sha256::digest`: the 32-byte digest of `data`.
#[verifier::external_body]
pub(crate) fn sha256_digest(data: &[u8]) -> (r: Vec<u8>)
    ensures
        r@ == sha256_of(data@),
        r@.len() == 32,
{
    <sha2::Sha256 as sha2::Digest>::digest(data).to_vec()
}

/// `hex::encode`: two lowercase hex digits per byte.
#[verifier::external_body]
pub(crate) fn hex_encode(data: &[u8]) -> (r: String)
    ensures
        r@ == hex_lower(data@),
{
    hex::encode(data)
}

/// `SigningKey::from_bytes(secret).verifying_key().to_bytes()`: the 32-byte public key.
#[verifier::external_body]
pub(crate) fn ed25519_public_key(secret: &[u8]) -> (r: Vec<u8>)
    requires
        secret@.len() == 32,
    ensures
        r@ == ed25519_public_of(secret@),
        r@.len() == 32,
{
    let key: [u8; 32] = <[u8; 32]>::try_from(secret).unwrap();
    ed25519_dalek::SigningKey::from_bytes(&key).verifying_key().to_bytes().to_vec()
}

/// `Signer::sign` with `SigningKey::from_bytes(secret)`, as its 64 signature bytes
/// (Ed25519 signing is deterministic).
#[verifier::external_body]
pub(crate) fn ed25519_sign(secret: &[u8], msg: &[u8]) -> (r: Vec<u8>)
    requires
        secret@.len() == 32,
    ensures
        r@ == ed25519_signature_of(secret@, msg@),
        r@.len() == 64,
{
    let key: [u8; 32] = <[u8; 32]>::try_from(secret).unwrap();
    ed25519_dalek::Signer::sign(&ed25519_dalek::SigningKey::from_bytes(&key), msg).to_bytes().to_vec()
}

/// `SigningKey::generate(&mut OsRng).to_bytes()`: a fresh random 32-byte secret key.
/// Only its length is stated; the bytes come from the operating system's generator.
#[verifier::external_body]
pub(crate) fn generate_secret_key() -> (r: Vec<u8>)
    ensures
        r@.len() == 32,
{
    ed25519_dalek::SigningKey::generate(&mut rand::rngs::OsRng).to_bytes().to_vec()
}

/// `char::to_lowercase`, collected. ASCII letters map to their lowercase letter and other
/// ASCII characters to themselves.
#[verifier::external_body]
pub(crate) fn char_to_lowercase(c: char) -> (r: Vec<char>)
    ensures
        r@ == lowercase_of(c),
        'A' <= c && c <= 'Z' ==> r@ == seq![((c as int) + 32) as char],
        (c as int) < 128 && !('A' <= c && c <= 'Z') ==> r@ == seq![c],
{
    c.to_lowercase().collect()
}

/// Milliseconds since the Unix epoch from the system clock (`SystemTime::now`), or `None`
/// when the clock reads before the epoch. Nothing is stated of the value.
#[verifier::external_body]
pub(crate) fn now_unix_ms() -> (r: Option<u64>) {
    match std::time::SystemTime::now().duration_since(std::time::UNIX_EPOCH) {
        Ok(d) => Some(d.as_millis() as u64),
        Err(_) => None,
    }
}

} // verus!
