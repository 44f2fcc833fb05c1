//! SHA-256, HMAC-SHA256 and hexadecimal text, as the crates `crypto-hash`,
//! `hmac` with `sha2`, and `hex` compute them.
//!
//! No function of this module is proved: each hands its arguments to the crate
//! that does the work, and its contract records what that crate returns.

use crate::text::hex_lower;
use hmac::Mac;
use vstd::prelude::*;

verus! {

/// The SHA-256 digest of `data`, written as lowercase hexadecimal text.
pub uninterp spec fn sha256_hex(data: Seq<u8>) -> Seq<char>;

/// The HMAC-SHA256 authentication code of `message` under `key`.
pub uninterp spec fn hmac_sha256(key: Seq<u8>, message: Seq<u8>) -> Seq<u8>;

/// Calls `crypto_hash::hex_digest` with `Algorithm::SHA256`.
///
/// Trusted: the text returned is the SHA-256 digest of `data` in lowercase
/// hexadecimal, 64 characters for the 32 bytes of a digest. The crate panics
/// only when the system's OpenSSL cannot provide SHA-256, whatever `data` is.
#[verifier::external_body]
pub(crate) fn sha256_hex_digest(data: &[u8]) -> (digest: String)
    ensures
        digest@ == sha256_hex(data@),
        digest@.len() == 64,
{
    crypto_hash::hex_digest(crypto_hash::Algorithm::SHA256, data)
}

/// Runs `Hmac<Sha256>` of the crates `hmac` and `sha2` over one message:
/// `new_from_slice`, `update`, `finalize`, `into_bytes`.
///
/// Trusted: the bytes returned are the HMAC-SHA256 code of `message` under
/// `key`. `new_from_slice` accepts a key of any length, so the call does not
/// fail.
#[verifier::external_body]
pub(crate) fn hmac_sha256_code(key: &[u8], message: &[u8]) -> (code: Vec<u8>)
    ensures
        code@ == hmac_sha256(key@, message@),
{
    let mut mac =
        hmac::Hmac::<sha2::Sha256>::new_from_slice(key).expect("HMAC can take key of any size");
    mac.update(message);
    mac.finalize().into_bytes().to_vec()
}

/// Calls `hex::encode`.
///
/// Trusted: every byte of `data` becomes two lowercase hexadecimal digits, in
/// order, the high half of the byte first.
#[verifier::external_body]
pub(crate) fn hex_encode(data: &[u8]) -> (text: String)
    ensures
        text@ == hex_lower(data@),
{
    hex::encode(data)
}

} // verus!
