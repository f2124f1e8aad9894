use std::str::FromStr;

use credit_scoring::handlers::binance::generate_proof;
use credit_scoring::solana_client::{
    credit_score_seed_bytes, decode_proof_hash, parse_program_id, prepare_credit_score_update,
    prepare_update_for_key, update_from_address, ClientError,
};
use credit_scoring::types::BinanceProofPayload;
use solana_pubkey::Pubkey;

const PROGRAM: &str = "5M7DFNUwLpR3eFvCMuKpukVNx6W6fQXz9hHYB8SxG7uy";
const USER: &str = "9WzDXwBbmkg8ZTbNMqUxvQRAyrZzDsGYdLVL9zYtAWWM";

fn program_id() -> [u8; 32] {
    parse_program_id(PROGRAM).unwrap()
}

#[test]
fn program_id_parses() {
    assert_eq!(parse_program_id("11111111111111111111111111111111"), Ok([0u8; 32]));
    assert_eq!(program_id(), Pubkey::from_str(PROGRAM).unwrap().to_bytes());
    assert_eq!(parse_program_id("not-base58!"), Err(ClientError::InvalidProgramId));
    assert_eq!(parse_program_id(""), Err(ClientError::InvalidProgramId));
}

#[test]
fn seed_is_credit_score() {
    assert_eq!(credit_score_seed_bytes(), b"credit_score".to_vec());
}

#[test]
fn update_checks_in_order() {
    let pid = program_id();
    let good_hash = "ab".repeat(32);
    assert_eq!(
        prepare_credit_score_update(&pid, "bad key", 500, &good_hash, 7, 9).err(),
        Some(ClientError::InvalidUserPubkey)
    );
    assert_eq!(
        prepare_credit_score_update(&pid, USER, 500, "zz", 7, 9).err(),
        Some(ClientError::InvalidProofHash)
    );
    assert_eq!(
        prepare_credit_score_update(&pid, USER, 500, "abc", 7, 9).err(),
        Some(ClientError::InvalidProofHash)
    );
    assert_eq!(
        prepare_credit_score_update(&pid, USER, 500, "abcd", 7, 9).err(),
        Some(ClientError::ProofHashLength)
    );
}

#[test]
fn update_for_a_generated_proof() {
    let pid = program_id();
    let proof = generate_proof(BinanceProofPayload::empty(), "{}", "binance_combined");
    let update = prepare_credit_score_update(&pid, USER, 730, &proof.proof_hash, 7, 1_800_000_000).unwrap();
    let user = Pubkey::from_str(USER).unwrap();
    let (account, _bump) = Pubkey::find_program_address(&[b"credit_score", user.as_ref()], &Pubkey::new_from_array(pid));
    assert_eq!(update.user_pubkey, user.to_bytes());
    assert_eq!(update.credit_score_account, account.to_bytes());
    assert_eq!(update.new_score, 730);
    assert_eq!(update.last_updated, 7);
    assert_eq!(update.expiry, 1_800_000_000);
    assert_eq!(hex::encode(update.proof_hash), proof.proof_hash);
}

#[test]
fn upper_case_proof_hash_is_accepted() {
    let pid = program_id();
    let update = prepare_credit_score_update(&pid, USER, 1, &"AB".repeat(32), 7, 0).unwrap();
    assert_eq!(update.proof_hash, [0xab; 32]);
}

#[test]
fn proof_hash_decoding() {
    assert_eq!(decode_proof_hash(&"0f".repeat(32)), Ok([0x0f; 32]));
    assert_eq!(decode_proof_hash(&"0f".repeat(31)), Err(ClientError::ProofHashLength));
    assert_eq!(decode_proof_hash(&"0f".repeat(33)), Err(ClientError::ProofHashLength));
    assert_eq!(decode_proof_hash(""), Err(ClientError::ProofHashLength));
    assert_eq!(decode_proof_hash(&format!("0x{}", "0f".repeat(31))), Err(ClientError::InvalidProofHash));
    assert_eq!(decode_proof_hash("g0"), Err(ClientError::InvalidProofHash));
}

#[test]
fn update_from_search_outcome() {
    assert_eq!(
        update_from_address([1; 32], None, 5, [2; 32], 4, 6).err(),
        Some(ClientError::NoProgramAddress)
    );
    let u = update_from_address([1; 32], Some(([3; 32], 254)), 5, [2; 32], 4, 6).unwrap();
    assert_eq!(u.user_pubkey, [1; 32]);
    assert_eq!(u.credit_score_account, [3; 32]);
    assert_eq!(u.new_score, 5);
    assert_eq!(u.proof_hash, [2; 32]);
    assert_eq!(u.last_updated, 4);
    assert_eq!(u.expiry, 6);
}

#[test]
fn update_for_a_parsed_key() {
    let pid = program_id();
    let user = Pubkey::from_str(USER).unwrap();
    let u = prepare_update_for_key(&pid, user.to_bytes(), 9, &"11".repeat(32), 7, 3).unwrap();
    let (account, _bump) = Pubkey::find_program_address(&[b"credit_score", user.as_ref()], &Pubkey::new_from_array(pid));
    assert_eq!(u.credit_score_account, account.to_bytes());
    assert_ne!(u.credit_score_account, user.to_bytes());
    assert_eq!(
        prepare_update_for_key(&pid, user.to_bytes(), 9, "11", 7, 3).err(),
        Some(ClientError::ProofHashLength)
    );
}
