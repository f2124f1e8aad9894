//! EIP-191 message hashes and signer recovery for signed webhook shares.
use vstd::prelude::*;

verus! {

/// The EIP-191 hash that `alloy_primitives::utils::eip191_hash_message` gives for `message`.
pub uninterp spec fn spec_eip191_hash_message(message: Seq<u8>) -> Seq<u8>;

/// The address that `alloy_primitives::Signature::recover_address_from_msg`
/// recovers, `None` when the signature bytes do not parse or recovery fails.
pub uninterp spec fn spec_recover_address_from_msg(signature: Seq<u8>, message: Seq<u8>) -> Option<
    Seq<u8>,
>;

/// Hashes `message` with `alloy_primitives::utils::eip191_hash_message`.
///
/// Trusted: the result is a function of the message bytes alone (Keccak-256
/// of the EIP-191 prefix, the decimal length and the message); the hash
/// itself is only named.
#[verifier::external_body]
pub(crate) fn eip191_hash_message(message: &[u8]) -> (r: [u8; 32])
    ensures
        r@ == spec_eip191_hash_message(message@),
{
    alloy_primitives::utils::eip191_hash_message(message).0
}

/// Parses a raw 65-byte signature with `alloy_signer::Signature::try_from`
/// and recovers the signing address of `message` with
/// `Signature::recover_address_from_msg`, which hashes `message` with EIP-191 first.
///
/// Trusted: the result is a function of the two byte strings alone, and
/// signature bytes whose length is not 65 are refused by `try_from`.
#[verifier::external_body]
pub(crate) fn recover_address_from_msg(signature: &[u8], message: &[u8]) -> (r: Option<[u8; 20]>)
    ensures
        r is Some <==> spec_recover_address_from_msg(signature@, message@) is Some,
        r matches Some(a) ==> spec_recover_address_from_msg(signature@, message@) == Some(a@),
        signature@.len() != 65 ==> r is None,
{
    match alloy_signer::Signature::try_from(signature) {
        Ok(sig) => match sig.recover_address_from_msg(message) {
            Ok(address) => Some(address.into_array()),
            Err(_) => None,
        },
        Err(_) => None,
    }
}

} // verus!
