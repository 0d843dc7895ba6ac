//! The operations this library takes from other crates: keyed and plain
//! hashing, randomness, the clock and text encoding. Nothing here is proved;
//! each contract repeats what the called function documents.

use base64::Engine;
use hmac::Mac;
use sha3::Digest;
use vstd::prelude::*;

verus! {

/// The HMAC-SHA3-256 tag of `message` under `key`.
pub uninterp spec fn hmac_sha3_256(key: Seq<u8>, message: Seq<u8>) -> Seq<u8>;

/// The SHA3-256 digest of `message`.
pub uninterp spec fn sha3_256(message: Seq<u8>) -> Seq<u8>;

/// The URL-safe, padded base64 text of `bytes`.
pub uninterp spec fn base64_url_safe(bytes: Seq<u8>) -> Seq<char>;

/// Computes a tag with `hmac::Hmac<sha3::Sha3_256>`: `new_from_slice`, which
/// takes a key of any length, then `update` and `finalize`. The result is
/// the tag that this MAC assigns to the key and the message.
#[verifier::external_body]
pub(crate) fn mac_tag(key: &[u8; 32], message: &Vec<u8>) -> (tag: Vec<u8>)
    ensures
        tag@ == hmac_sha3_256(key@, message@),
{
    let mut mac = hmac::Hmac::<sha3::Sha3_256>::new_from_slice(key).expect("any key length");
    mac.update(message);
    mac.finalize().into_bytes().to_vec()
}

/// Checks a tag with `Mac::verify_slice` of `hmac::Hmac<sha3::Sha3_256>`,
/// which compares in constant time and accepts exactly the tag of the key
/// and the message, at its full length.
#[verifier::external_body]
pub(crate) fn mac_verifies(key: &[u8; 32], message: &Vec<u8>, tag: &Vec<u8>) -> (ok: bool)
    ensures
        ok == (tag@ == hmac_sha3_256(key@, message@)),
{
    let mut mac = hmac::Hmac::<sha3::Sha3_256>::new_from_slice(key).expect("any key length");
    mac.update(message);
    mac.verify_slice(tag).is_ok()
}

/// Hashes with `sha3::Sha3_256::digest`, whose output has 32 bytes.
#[verifier::external_body]
pub(crate) fn digest(message: &Vec<u8>) -> (hash: Vec<u8>)
    ensures
        hash@ == sha3_256(message@),
        hash@.len() == 32,
{
    sha3::Sha3_256::digest(message).to_vec()
}

/// Fills an array from `rand::thread_rng` with `RngCore::fill_bytes`.
/// Nothing is known of the bytes.
#[verifier::external_body]
pub(crate) fn random_bytes<const N: usize>() -> (bytes: [u8; N]) {
    let mut bytes = [0u8; N];
    rand::RngCore::fill_bytes(&mut rand::thread_rng(), &mut bytes);
    bytes
}

/// Reads the clock with `chrono::Utc::now` and gives `timestamp`, the
/// seconds since the Unix epoch. Nothing is known of the value.
#[verifier::external_body]
pub(crate) fn unix_seconds() -> (now: i64) {
    chrono::Utc::now().timestamp()
}

/// Reads the clock with `chrono::Utc::now` and gives `timestamp_millis`,
/// the milliseconds since the Unix epoch. Nothing is known of the value.
#[verifier::external_body]
pub(crate) fn unix_millis() -> (now: i64) {
    chrono::Utc::now().timestamp_millis()
}

/// Encodes with `Engine::encode` of `base64::engine::general_purpose::URL_SAFE`.
#[verifier::external_body]
pub(crate) fn encode_base64(bytes: &[u8; 16]) -> (text: String)
    ensures
        text@ == base64_url_safe(bytes@),
{
    base64::engine::general_purpose::URL_SAFE.encode(bytes)
}

/// Appends with `String::push_str`: the text grows by `tail` at its end.
#[verifier::external_body]
pub(crate) fn push_text(text: &mut String, tail: &str)
    ensures
        final(text)@ == old(text)@ + tail@,
{
    text.push_str(tail)
}

} // verus!
