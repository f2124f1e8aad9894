//! Preparing the on-chain `UpdateCreditScore` instruction: key parsing,
//! proof-hash decoding and the credit-score account address.
use std::str::FromStr;
use vstd::prelude::*;

use crate::encoding::{
    ascii_bytes, hex_decode, hex_decode_spec, hex_lower, lemma_hex_lower_ascii, lemma_hex_roundtrip,
};

verus! {

/// The public key that `solana_pubkey::Pubkey::from_str` reads from base-58 text.
pub uninterp spec fn spec_parse_pubkey(text: Seq<char>) -> Option<Seq<u8>>;

/// The program address and bump seed that
/// `solana_pubkey::Pubkey::try_find_program_address` finds for two seeds.
pub uninterp spec fn spec_find_program_address(
    seed_a: Seq<u8>,
    seed_b: Seq<u8>,
    program_id: Seq<u8>,
) -> Option<(Seq<u8>, u8)>;

/// Reads a base-58 public key with `solana_pubkey::Pubkey::from_str`.
///
/// Trusted: the result is a function of the text alone; base-58 decoding
/// itself is only named.
#[verifier::external_body]
fn parse_pubkey(text: &str) -> (r: Option<[u8; 32]>)
    ensures
        r is Some <==> spec_parse_pubkey(text@) is Some,
        r matches Some(k) ==> spec_parse_pubkey(text@) == Some(k@),
{
    match solana_pubkey::Pubkey::from_str(text) {
        Ok(key) => Some(key.to_bytes()),
        Err(_) => None,
    }
}

/// Searches the program address of two seeds with
/// `solana_pubkey::Pubkey::try_find_program_address`.
///
/// Trusted: the result is a function of the seeds and the program id alone;
/// the search (SHA-256 over seeds, bump and program id, off-curve test) is
/// only named.
#[verifier::external_body]
fn try_find_program_address(seed_a: &[u8], seed_b: &[u8], program_id: &[u8; 32]) -> (r: Option<
    ([u8; 32], u8),
>)
    ensures
        r is Some <==> spec_find_program_address(seed_a@, seed_b@, program_id@) is Some,
        r matches Some(found) ==> spec_find_program_address(seed_a@, seed_b@, program_id@) == Some(
            (found.0@, found.1),
        ),
{
    let program = solana_pubkey::Pubkey::new_from_array(*program_id);
    match solana_pubkey::Pubkey::try_find_program_address(&[seed_a, seed_b], &program) {
        Some((address, bump)) => Some((address.to_bytes(), bump)),
        None => None,
    }
}

/// Why an on-chain update could not be prepared.
#[derive(Clone, Copy, Debug, PartialEq, Eq, Structural)]
pub enum ClientError {
    /// The credit score program id is no base-58 public key.
    InvalidProgramId,
    /// The wallet is no base-58 public key.
    InvalidUserPubkey,
    /// The proof hash is not hex text.
    InvalidProofHash,
    /// The proof hash does not decode to 32 bytes.
    ProofHashLength,
    /// No bump seed gives an off-curve credit score address.
    NoProgramAddress,
}

/// The seed that, with the user's key, derives the credit score account: `credit_score`.
pub open spec fn credit_score_seed() -> Seq<u8> {
    seq![99u8, 114, 101, 100, 105, 116, 95, 115, 99, 111, 114, 101]
}

/// The bytes of the seed `credit_score`.
pub fn credit_score_seed_bytes() -> (r: Vec<u8>)
    ensures
        r@ == credit_score_seed(),
{
    let r = vec![99u8, 114, 101, 100, 105, 116, 95, 115, 99, 111, 114, 101];
    assert(r@ =~= credit_score_seed());
    r
}

/// Reads the credit score program id.
pub fn parse_program_id(text: &str) -> (r: Result<[u8; 32], ClientError>)
    ensures
        match spec_parse_pubkey(text@) {
            Some(k) => r matches Ok(id) && id@ == k,
            None => r == Err::<[u8; 32], ClientError>(ClientError::InvalidProgramId),
        },
{
    match parse_pubkey(text) {
        Some(key) => Ok(key),
        None => Err(ClientError::InvalidProgramId),
    }
}

/// The arguments and accounts of one `UpdateCreditScore` instruction.
pub struct CreditScoreUpdate {
    pub user_pubkey: [u8; 32],
    /// The credit score account derived from the user's key.
    pub credit_score_account: [u8; 32],
    pub new_score: u16,
    pub proof_hash: [u8; 32],
    /// When the score was computed, in seconds since the Unix epoch.
    pub last_updated: i64,
    pub expiry: i64,
}

/// The update prepared for these inputs, or the error for the first check
/// that fails: user key, proof-hash hex, proof-hash length, account derivation.
pub open spec fn update_matches(
    r: Result<CreditScoreUpdate, ClientError>,
    program_id: Seq<u8>,
    user_pubkey: Seq<char>,
    new_score: u16,
    proof_hash: Seq<char>,
    last_updated: i64,
    expiry: i64,
) -> bool {
    match spec_parse_pubkey(user_pubkey) {
        None => r == Err::<CreditScoreUpdate, ClientError>(ClientError::InvalidUserPubkey),
        Some(user) => update_for_key_matches(
            r,
            program_id,
            user,
            new_score,
            proof_hash,
            last_updated,
            expiry,
        ),
    }
}

/// The update prepared for a parsed user key.
pub open spec fn update_for_key_matches(
    r: Result<CreditScoreUpdate, ClientError>,
    program_id: Seq<u8>,
    user: Seq<u8>,
    new_score: u16,
    proof_hash: Seq<char>,
    last_updated: i64,
    expiry: i64,
) -> bool {
    match proof_hash_bytes(proof_hash) {
        Err(e) => r == Err::<CreditScoreUpdate, ClientError>(e),
        Ok(hash) => update_from_address_matches(
            r,
            user,
            spec_find_program_address(credit_score_seed(), user, program_id),
            new_score,
            hash,
            last_updated,
            expiry,
        ),
    }
}

/// The 32 bytes written in a proof hash's hex text, or why there are none.
pub open spec fn proof_hash_bytes(proof_hash: Seq<char>) -> Result<Seq<u8>, ClientError> {
    match hex_decode_spec(vstd::utf8::encode_utf8(proof_hash)) {
        None => Err(ClientError::InvalidProofHash),
        Some(hash) => if hash.len() != 32 {
            Err(ClientError::ProofHashLength)
        } else {
            Ok(hash)
        },
    }
}

/// The update given the outcome of the account search.
pub open spec fn update_from_address_matches(
    r: Result<CreditScoreUpdate, ClientError>,
    user: Seq<u8>,
    found: Option<(Seq<u8>, u8)>,
    new_score: u16,
    hash: Seq<u8>,
    last_updated: i64,
    expiry: i64,
) -> bool {
    match found {
        None => r == Err::<CreditScoreUpdate, ClientError>(ClientError::NoProgramAddress),
        Some(f) => r matches Ok(u) && u.user_pubkey@ == user && u.credit_score_account@ == f.0
            && u.new_score == new_score && u.proof_hash@ == hash && u.last_updated
            == last_updated && u.expiry == expiry,
    }
}

/// Decodes a proof hash: hex text of exactly 32 bytes.
pub fn decode_proof_hash(proof_hash: &str) -> (r: Result<[u8; 32], ClientError>)
    ensures
        match proof_hash_bytes(proof_hash@) {
            Ok(hash) => r matches Ok(a) && a@ == hash,
            Err(e) => r == Err::<[u8; 32], ClientError>(e),
        },
{
    let hash_bytes = match hex_decode(proof_hash.as_bytes()) {
        Some(b) => b,
        None => return Err(ClientError::InvalidProofHash),
    };
    if hash_bytes.len() != 32 {
        return Err(ClientError::ProofHashLength);
    }
    let mut array = [0u8; 32];
    let mut i: usize = 0;
    while i < 32
        invariant
            i <= 32,
            hash_bytes@.len() == 32,
            forall|j: int| 0 <= j < i ==> array@[j] == hash_bytes@[j],
        decreases 32 - i,
    {
        array[i] = hash_bytes[i];
        i += 1;
    }
    assert(array@ =~= hash_bytes@);
    Ok(array)
}

/// Builds the update once the credit score account has been searched for:
/// no account found is an error.
pub fn update_from_address(
    user: [u8; 32],
    found: Option<([u8; 32], u8)>,
    new_score: u16,
    proof_hash: [u8; 32],
    last_updated: i64,
    expiry: i64,
) -> (r: Result<CreditScoreUpdate, ClientError>)
    ensures
        update_from_address_matches(
            r,
            user@,
            match found {
                Some(f) => Some((f.0@, f.1)),
                None => None,
            },
            new_score,
            proof_hash@,
            last_updated,
            expiry,
        ),
{
    match found {
        Some((account, _bump)) => Ok(
            CreditScoreUpdate {
                user_pubkey: user,
                credit_score_account: account,
                new_score,
                proof_hash,
                last_updated,
                expiry,
            },
        ),
        None => Err(ClientError::NoProgramAddress),
    }
}

/// Prepares the update for a parsed user key: decodes the proof hash and
/// derives the credit score account from the seed `credit_score` and the
/// key under the program id.
pub fn prepare_update_for_key(
    program_id: &[u8; 32],
    user: [u8; 32],
    new_score: u16,
    proof_hash: &str,
    last_updated: i64,
    expiry: i64,
) -> (r: Result<CreditScoreUpdate, ClientError>)
    ensures
        update_for_key_matches(r, program_id@, user@, new_score, proof_hash@, last_updated, expiry),
{
    let hash = match decode_proof_hash(proof_hash) {
        Ok(h) => h,
        Err(e) => return Err(e),
    };
    let seed = credit_score_seed_bytes();
    let found = try_find_program_address(seed.as_slice(), &user, program_id);
    update_from_address(user, found, new_score, hash, last_updated, expiry)
}

/// Checks and decodes the inputs of an `UpdateCreditScore` instruction
/// (user key, new score, proof hash, last update time, expiry): the
/// wallet must be a public key, the proof hash hex text of 32 bytes, and the
/// credit score account is derived from the seed `credit_score` and the
/// wallet's key under the program id.
pub fn prepare_credit_score_update(
    program_id: &[u8; 32],
    user_pubkey: &str,
    new_score: u16,
    proof_hash: &str,
    last_updated: i64,
    expiry: i64,
) -> (r: Result<CreditScoreUpdate, ClientError>)
    ensures
        update_matches(r, program_id@, user_pubkey@, new_score, proof_hash@, last_updated, expiry),
{
    match parse_pubkey(user_pubkey) {
        Some(user) => prepare_update_for_key(
            program_id,
            user,
            new_score,
            proof_hash,
            last_updated,
            expiry,
        ),
        None => Err(ClientError::InvalidUserPubkey),
    }
}

/// The text of a proof hash (lower-case hex of a digest) decodes to the digest.
pub proof fn lemma_proof_hash_text_decodes(digest: Seq<u8>)
    ensures
        hex_decode_spec(vstd::utf8::encode_utf8(hex_lower(digest))) == Some(digest),
{
    let text = hex_lower(digest);
    lemma_hex_lower_ascii(digest);
    assert(vstd::utf8::is_ascii_chars(text));
    vstd::utf8::is_ascii_chars_encode_utf8(text);
    assert(vstd::utf8::encode_utf8(text) =~= ascii_bytes(text));
    lemma_hex_roundtrip(digest);
}

/// A proof hash made from a 32-byte digest, as `generate_proof` makes it,
/// passes both proof-hash checks of `prepare_credit_score_update`, and the
/// prepared update carries that digest.
pub proof fn lemma_generated_proof_hash_accepted(
    r: Result<CreditScoreUpdate, ClientError>,
    program_id: Seq<u8>,
    user_pubkey: Seq<char>,
    new_score: u16,
    last_updated: i64,
    expiry: i64,
    digest: Seq<u8>,
)
    requires
        digest.len() == 32,
        update_matches(r, program_id, user_pubkey, new_score, hex_lower(digest), last_updated, expiry),
    ensures
        r != Err::<CreditScoreUpdate, ClientError>(ClientError::InvalidProofHash),
        r != Err::<CreditScoreUpdate, ClientError>(ClientError::ProofHashLength),
        r matches Ok(u) ==> u.proof_hash@ == digest,
        spec_parse_pubkey(user_pubkey) is Some && spec_find_program_address(
            credit_score_seed(),
            spec_parse_pubkey(user_pubkey).unwrap(),
            program_id,
        ) is Some ==> r is Ok,
{
    lemma_proof_hash_text_decodes(digest);
}

} // verus!
