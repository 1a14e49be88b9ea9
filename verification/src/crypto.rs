//! Hashing, message authentication and hexadecimal encoding, done by the
//! `sha2`, `hmac` and `hex` crates.
use crate::text::hex_lower;
use hmac::Mac;
use sha2::Digest;
use vstd::prelude::*;

verus! {

/// The SHA-256 digest of a byte sequence.
pub uninterp spec fn spec_sha256(data: Seq<u8>) -> Seq<u8>;

/// The HMAC-SHA256 tag of `msg` under `key`.
pub uninterp spec fn spec_hmac_sha256(key: Seq<u8>, msg: Seq<u8>) -> Seq<u8>;

/// SHA-256 of `data`, computed by `sha2::Sha256::digest`.
/// Claims that the digest is the named function of the input and that it
/// is 32 bytes long (the output size of SHA-256).
#[verifier::external_body]
pub(crate) fn sha256(data: &[u8]) -> (res: Vec<u8>)
    ensures
        res@ == spec_sha256(data@),
        res@.len() == 32,
{
    sha2::Sha256::digest(data).to_vec()
}

/// HMAC-SHA256 of `msg` under `key`, computed by `hmac::Hmac<sha2::Sha256>`
/// (`new_from_slice`, `update`, `finalize`).
/// Claims that the tag is the named function of key and message and that it
/// is 32 bytes long. In hmac 0.12 `new_from_slice` accepts keys of every
/// length (longer keys are hashed first), so the error arm is never taken.
#[verifier::external_body]
pub(crate) fn hmac_sha256(key: &[u8], msg: &[u8]) -> (res: Vec<u8>)
    ensures
        res@ == spec_hmac_sha256(key@, msg@),
        res@.len() == 32,
{
    match hmac::Hmac::<sha2::Sha256>::new_from_slice(key) {
        Ok(mut mac) => {
            mac.update(msg);
            mac.finalize().into_bytes().to_vec()
        },
        Err(_) => Vec::new(),
    }
}

/// Lowercase hexadecimal encoding of `data`, computed by `hex::encode`.
/// Claims the documented output: two lowercase digits per byte, high digit
/// first.
#[verifier::external_body]
pub(crate) fn hex_encode(data: &[u8]) -> (res: String)
    ensures
        res@ == hex_lower(data@),
{
    hex::encode(data)
}

} // verus!
