use credit_scoring::handlers::proofs::prepare_scoring;
use credit_scoring::score::ScoringEngine;
use credit_scoring::store::{ProofStore, ScoreStore};
use credit_scoring::types::{BinanceProofPayload, CreditScore, ProofStatus, ScoreComponents, VerifiedProof};

fn stored(hash: &str) -> VerifiedProof {
    VerifiedProof {
        proof_hash: hash.to_string(),
        alias: "binance_combined".to_string(),
        status: ProofStatus::Verified,
        verified_at: 5,
        payload: BinanceProofPayload::empty(),
    }
}

#[test]
fn unknown_wallet_has_no_proofs() {
    let store = ProofStore::new();
    assert!(store.proofs_of("0xabc").is_empty());
}

#[test]
fn proofs_are_kept_in_order_per_wallet() {
    let mut store = ProofStore::new();
    store.add_proof("0xa".to_string(), stored("h1"));
    store.add_proof("0xb".to_string(), stored("h2"));
    store.add_proof("0xa".to_string(), stored("h3"));
    let a: Vec<String> = store.proofs_of("0xa").into_iter().map(|p| p.proof_hash).collect();
    let b: Vec<String> = store.proofs_of("0xb").into_iter().map(|p| p.proof_hash).collect();
    assert_eq!(a, vec!["h1".to_string(), "h3".to_string()]);
    assert_eq!(b, vec!["h2".to_string()]);
    assert!(store.proofs_of("0xA").is_empty());
}

#[test]
fn scoring_answers_the_last_stored_proof() {
    let mut store = ProofStore::new();
    store.add_proof("0xa".to_string(), stored("first"));
    store.add_proof("0xa".to_string(), stored("latest"));
    let proofs = store.proofs_of("0xa");
    let plan = prepare_scoring(&ScoringEngine::new(), "0xa", &proofs, 0).ok().unwrap();
    assert_eq!(plan.latest_proof_hash, "latest");
}

fn score(total: u16) -> CreditScore {
    CreditScore {
        user_wallet: "0xa".to_string(),
        score_total: total,
        components: ScoreComponents {
            onchain_score: 200,
            asset_score: 0,
            behavior_score: 0,
            history_score: 50,
            zktls_binance_payload: None,
        },
        last_updated: 1,
        proof_hashes: vec![],
        onchain_tx_sig: None,
    }
}

#[test]
fn latest_score_replaces_earlier() {
    let mut scores = ScoreStore::new();
    assert!(scores.score_of("0xa").is_none());
    scores.record("0xa", score(250));
    scores.record("0xa", score(400));
    assert_eq!(scores.score_of("0xa").map(|s| s.score_total), Some(400));
    assert!(scores.score_of("0xb").is_none());
}
