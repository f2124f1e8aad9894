//! SHA-256 digests of proof payloads.
use sha2::Digest;
use vstd::prelude::*;

verus! {

/// The SHA-256 digest of `data`, as computed by the `sha2` crate.
pub uninterp spec fn spec_sha256(data: Seq<u8>) -> Seq<u8>;

/// Hashes `data` with `sha2::Sha256::digest`.
///
/// Trusted: the result is the SHA-256 digest of exactly the bytes given,
/// 32 bytes long; SHA-256 itself is not stated here, only named.
#[verifier::external_body]
pub(crate) fn sha256_digest(data: &[u8]) -> (r: Vec<u8>)
    ensures
        r@ == spec_sha256(data@),
        r@.len() == 32,
{
    sha2::Sha256::digest(data).to_vec()
}

} // verus!
