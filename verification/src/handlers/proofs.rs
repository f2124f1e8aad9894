//! Proof submission: scoring a wallet from its stored proofs and recording
//! the score once it has been published on chain.
use vstd::prelude::*;

use crate::clock::now_timestamp;
use crate::score::{
    components_match, engine_merge, proof_payloads, ScoringEngine, ScoringError,
};
use crate::store::{proof_models, proofs_for};
use crate::types::{spec_total_score, CreditScore, ProofModel, ScoreComponents, VerifiedProof};

verus! {

/// How long a published score stays valid: 30 days, in seconds.
pub open spec fn score_validity_seconds() -> int {
    2_592_000
}

/// What scoring decided for a wallet, ready to be published.
pub struct ScoringPlan {
    pub components: ScoreComponents,
    pub total_score: u16,
    /// The hash of the wallet's most recent proof.
    pub latest_proof_hash: String,
    /// When the score was computed, in seconds since the Unix epoch.
    pub scored_at: i64,
    /// When the published score expires, in seconds since the Unix epoch.
    pub expiry: i64,
}

/// The plan that scoring makes for these proofs at time `now`.
pub open spec fn plan_matches(plan: ScoringPlan, proofs: Seq<VerifiedProof>, now: int) -> bool {
    &&& components_match(plan.components, engine_merge(proof_payloads(proofs)))
    &&& plan.total_score == spec_total_score(
        plan.components.onchain_score,
        plan.components.asset_score,
        plan.components.behavior_score,
        plan.components.history_score,
    )
    &&& plan.latest_proof_hash@ == proofs.last().proof_hash@
    &&& plan.scored_at == now
    &&& plan.expiry == now + score_validity_seconds()
}

/// Scores a wallet from its stored proofs at time `now`: no proof is an
/// error; a time so late that the expiry would not fit an `i64` is
/// `ExpiryOutOfRange`; otherwise the components, their total, the latest
/// proof hash, `now` as the scoring time and an expiry 30 days after it.
pub fn prepare_scoring(
    engine: &ScoringEngine,
    wallet: &str,
    proofs: &[VerifiedProof],
    now: i64,
) -> (r: Result<ScoringPlan, ScoringError>)
    ensures
        proofs@.len() == 0 ==> r == Err::<ScoringPlan, ScoringError>(ScoringError::NoProofs),
        proofs@.len() > 0 && now + score_validity_seconds() > i64::MAX ==> r == Err::<
            ScoringPlan,
            ScoringError,
        >(ScoringError::ExpiryOutOfRange),
        proofs@.len() > 0 && now + score_validity_seconds() <= i64::MAX ==> (r matches Ok(plan)
            && plan_matches(plan, proofs@, now as int)),
{
    if proofs.len() == 0 {
        return Err(ScoringError::NoProofs);
    }
    if now > i64::MAX - 2_592_000 {
        return Err(ScoringError::ExpiryOutOfRange);
    }
    let components = match engine.compute_score(wallet, proofs) {
        Ok(c) => c,
        Err(e) => return Err(e),
    };
    let total_score = components.total_score();
    let latest_proof_hash = proofs[proofs.len() - 1].proof_hash.clone();
    let expiry = now + 2_592_000;
    Ok(ScoringPlan { components, total_score, latest_proof_hash, scored_at: now, expiry })
}

/// Scores a wallet at the current time, as `prepare_scoring` does with the
/// clock's reading; the clock stays within chrono's date range, so a wallet
/// with proofs is always scored.
pub fn prepare_scoring_now(engine: &ScoringEngine, wallet: &str, proofs: &[VerifiedProof]) -> (r:
    Result<ScoringPlan, ScoringError>)
    ensures
        proofs@.len() == 0 ==> r == Err::<ScoringPlan, ScoringError>(ScoringError::NoProofs),
        proofs@.len() > 0 ==> (r matches Ok(plan) && plan_matches(
            plan,
            proofs@,
            plan.scored_at as int,
        )),
{
    let now = now_timestamp();
    prepare_scoring(engine, wallet, proofs, now)
}

/// The credit score recorded once the plan has been published on chain by
/// transaction `tx_sig` at time `last_updated`.
pub fn record_credit_score(
    wallet: &str,
    plan: ScoringPlan,
    proofs: &[VerifiedProof],
    last_updated: i64,
    tx_sig: String,
) -> (r: CreditScore)
    ensures
        r.user_wallet@ == wallet@,
        r.score_total == plan.total_score,
        r.components == plan.components,
        r.last_updated == last_updated,
        r.proof_hashes@.len() == proofs@.len(),
        forall|i: int| 0 <= i < proofs@.len() ==> r.proof_hashes@[i] == #[trigger] proofs@[i].proof_hash,
        r.onchain_tx_sig == Some(tx_sig),
{
    let mut proof_hashes: Vec<String> = Vec::new();
    let mut i: usize = 0;
    while i < proofs.len()
        invariant
            i <= proofs.len(),
            proof_hashes@.len() == i,
            forall|j: int| 0 <= j < i ==> proof_hashes@[j] == #[trigger] proofs@[j].proof_hash,
        decreases proofs.len() - i,
    {
        proof_hashes.push(proofs[i].proof_hash.clone());
        i += 1;
    }
    CreditScore {
        user_wallet: wallet.to_owned(),
        score_total: plan.total_score,
        components: plan.components,
        last_updated,
        proof_hashes,
        onchain_tx_sig: Some(tx_sig),
    }
}

/// The credit score recorded now, as `record_credit_score` builds it: its
/// `last_updated` is the clock's reading, a time within chrono's date range.
pub fn record_credit_score_now(
    wallet: &str,
    plan: ScoringPlan,
    proofs: &[VerifiedProof],
    tx_sig: String,
) -> (r: CreditScore)
    ensures
        r.user_wallet@ == wallet@,
        r.score_total == plan.total_score,
        r.components == plan.components,
        r.proof_hashes@.len() == proofs@.len(),
        forall|i: int| 0 <= i < proofs@.len() ==> r.proof_hashes@[i] == #[trigger] proofs@[i].proof_hash,
        r.onchain_tx_sig == Some(tx_sig),
        -8_334_601_315_200 <= r.last_updated <= 8_210_266_876_799,
{
    let now = now_timestamp();
    record_credit_score(wallet, plan, proofs, now, tx_sig)
}

/// Scoring a wallet's stored proofs right after a proof was stored for it
/// answers the hash of that proof.
pub proof fn lemma_scoring_answers_last_stored_proof(
    store: Map<Seq<char>, Seq<ProofModel>>,
    wallet: Seq<char>,
    stored: ProofModel,
    proofs: Seq<VerifiedProof>,
    plan: ScoringPlan,
    now: int,
)
    requires
        proof_models(proofs) == proofs_for(
            store.insert(wallet, proofs_for(store, wallet).push(stored)),
            wallet,
        ),
        plan_matches(plan, proofs, now),
    ensures
        plan.latest_proof_hash@ == stored.proof_hash,
{
    let other = wallet.push('x');
    assert(other.len() != wallet.len());
    crate::store::lemma_added_proof_is_latest(store, wallet, stored, other);
    assert(proof_models(proofs).len() == proofs.len());
    assert(proof_models(proofs)[proofs.len() - 1] == proofs[proofs.len() - 1]@);
}

} // verus!
