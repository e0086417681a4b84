//! The hash and the signature scheme that evidence is built on.

use vstd::prelude::*;

verus! {

/// The SHA-256 digest of `data`.
pub uninterp spec fn sha256(data: Seq<u8>) -> Seq<u8>;

/// `sha2::Sha256::digest`. Claimed of it: the digest of a byte string is a function of that
/// byte string alone. That it is 32 bytes long is in its type.
#[verifier::external_body]
pub(crate) fn sha256_digest(data: &[u8]) -> (digest: [u8; 32])
    ensures
        digest@ == sha256(data@),
{
    <sha2::Sha256 as sha2::Digest>::digest(data).into()
}

/// Whether `signature` is a valid fixed-length ECDSA P-384 signature over the SHA-384 digest of
/// `message` under the uncompressed public point `key`.
pub uninterp spec fn ecdsa_p384_valid(
    key: Seq<u8>,
    message: Seq<u8>,
    signature: Seq<u8>,
) -> bool;

/// `ring::signature::UnparsedPublicKey::verify` for `ECDSA_P384_SHA384_FIXED`. Claimed of it:
/// whether it accepts is a function of key, message and signature alone.
#[verifier::external_body]
pub(crate) fn ecdsa_p384_verify(key: &[u8], message: &[u8], signature: &[u8]) -> (valid: bool)
    ensures
        valid == ecdsa_p384_valid(key@, message@, signature@),
{
    ring::signature::UnparsedPublicKey::new(&ring::signature::ECDSA_P384_SHA384_FIXED, key)
        .verify(message, signature)
        .is_ok()
}

} // verus!
