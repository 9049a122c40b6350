//! Signing of webhook payloads: HMAC-SHA256 over the exact body bytes,
//! transmitted as lower-case hexadecimal in the `X-Webhook-Signature` header.

use vstd::prelude::*;
use vstd::string::StringSliceAdditionalSpecFns;
use crate::json::hex_digit_char;

verus! {

/// Lower-case hexadecimal text of a byte string: two digits per byte,
/// high nibble first.
pub open spec fn hex_of(bytes: Seq<u8>) -> Seq<char>
    decreases bytes,
{
    if bytes.len() == 0 {
        Seq::empty()
    } else {
        hex_of(bytes.drop_last()) + seq![
            hex_digit_char(bytes[bytes.len() - 1] as int / 16),
            hex_digit_char(bytes[bytes.len() - 1] as int % 16),
        ]
    }
}

/// The HMAC-SHA256 tag: a function of key and message alone, left without
/// a definition here; the computation is the hmac crate's.
pub uninterp spec fn hmac_sha256_of(key: Seq<u8>, msg: Seq<u8>) -> Seq<u8>;

/// The signature this subsystem puts in the `X-Webhook-Signature` header:
/// lower-case hex of the HMAC-SHA256 tag of the body under the secret.
pub open spec fn signature_text(key: Seq<u8>, msg: Seq<u8>) -> Seq<char> {
    hex_of(hmac_sha256_of(key, msg))
}

/// Relies on `hmac::Hmac<sha2::Sha256>` (`new_from_slice`, `update`,
/// `finalize`): the tag depends on key and message alone and is 32 bytes
/// long. Keys of every length are accepted (long keys are hashed first),
/// so construction cannot fail.
#[verifier::external_body]
fn hmac_sha256(key: &[u8], msg: &[u8]) -> (r: Vec<u8>)
    ensures
        r@ == hmac_sha256_of(key@, msg@),
        r@.len() == 32,
{
    let mut mac = <hmac::Hmac<sha2::Sha256> as hmac::Mac>::new_from_slice(key)
        .expect("HMAC accepts keys of any length");
    hmac::Mac::update(&mut mac, msg);
    hmac::Mac::finalize(mac).into_bytes().to_vec()
}

/// Relies on `hex::encode`: each byte becomes two lower-case hexadecimal
/// digits, high nibble first.
#[verifier::external_body]
fn hex_encode(bytes: &Vec<u8>) -> (r: String)
    ensures
        r@ == hex_of(bytes@),
{
    hex::encode(bytes)
}

/// The header value for a payload: hex-encoded HMAC-SHA256 of the exact
/// body bytes, keyed by the subscription's shared secret.
pub fn sign_payload(secret: &str, body: &str) -> (sig: String)
    ensures
        sig@ == signature_text(secret.spec_bytes(), body.spec_bytes()),
{
    let tag = hmac_sha256(secret.as_bytes(), body.as_bytes());
    hex_encode(&tag)
}

/// A receiver's check: recompute the signature over the received body with
/// the shared secret and compare it with the transmitted header value.
pub fn verify_signature(secret: &str, body: &str, signature: &String) -> (ok: bool)
    ensures
        ok == (signature@ == signature_text(secret.spec_bytes(), body.spec_bytes())),
{
    let expected = sign_payload(secret, body);
    expected == *signature
}

/// A per-user data key as the key store holds it: the key bytes encrypted
/// under a master key, beside the nonce used for that encryption.
#[derive(Debug)]
pub struct UserKey {
    pub user_id: i32,
    pub encrypted_key: Vec<u8>,
    pub iv: Vec<u8>,
}

} // verus!
