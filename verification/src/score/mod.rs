//! The scoring engine: merges the payloads of a wallet's proofs and scores them.
use vstd::prelude::*;

pub mod asset;
pub mod behavior;
pub mod history;
pub mod onchain;

use crate::score::asset::{asset_points, AssetScorer};
use crate::score::behavior::{
    behavior_points, BehaviorScorer,
};
use crate::score::history::{baseline_history_points, HistoryScorer};
use crate::score::onchain::{baseline_onchain_points, OnchainAnalyzer};
use crate::types::{
    empty_payload, BinanceProofPayload, PayloadModel, ScoreComponents, VerifiedProof,
};

verus! {

/// Why scoring a wallet failed.
#[derive(Clone, Copy, Debug, PartialEq, Eq, Structural)]
pub enum ScoringError {
    /// The wallet has no stored proof.
    NoProofs,
    /// The clock is so late that the score's expiry does not fit an `i64`.
    ExpiryOutOfRange,
}

/// `base` extended by `update`; an absent list changes nothing, and an absent
/// base counts as empty once something is appended.
pub open spec fn append_list<T>(base: Option<Seq<T>>, update: Option<Seq<T>>) -> Option<Seq<T>> {
    match update {
        Some(u) => Some(
            match base {
                Some(b) => b + u,
                None => u,
            },
        ),
        None => base,
    }
}

/// One step of the engine's merge: a profile or balance is kept from the
/// first payload that has one; trade and income lists are concatenated.
pub open spec fn fill_step(m: PayloadModel, p: PayloadModel) -> PayloadModel {
    PayloadModel {
        profile: if m.profile is None && p.profile is Some {
            p.profile
        } else {
            m.profile
        },
        wallet_balance: if m.wallet_balance is None && p.wallet_balance is Some {
            p.wallet_balance
        } else {
            m.wallet_balance
        },
        spot_trades: append_list(m.spot_trades, p.spot_trades),
        futures_income_history: append_list(m.futures_income_history, p.futures_income_history),
    }
}

/// The engine's merge of a sequence of payloads, in order.
pub open spec fn engine_merge(ps: Seq<PayloadModel>) -> PayloadModel
    decreases ps.len(),
{
    if ps.len() == 0 {
        empty_payload()
    } else {
        fill_step(engine_merge(ps.drop_last()), ps.last())
    }
}

/// The webhook's fold of a sequence of payloads: each one merged over the previous ones.
pub open spec fn override_fold(ps: Seq<PayloadModel>) -> PayloadModel
    decreases ps.len(),
{
    if ps.len() == 0 {
        empty_payload()
    } else {
        crate::handlers::binance::override_merge(override_fold(ps.drop_last()), ps.last())
    }
}

/// The first profile and balance given in a sequence of payloads.
pub open spec fn first_profile(ps: Seq<PayloadModel>) -> Option<crate::types::BinanceProfile>
    decreases ps.len(),
{
    if ps.len() == 0 {
        None
    } else if first_profile(ps.drop_last()) is Some {
        first_profile(ps.drop_last())
    } else {
        ps.last().profile
    }
}

/// The last profile given in a sequence of payloads.
pub open spec fn last_profile(ps: Seq<PayloadModel>) -> Option<crate::types::BinanceProfile>
    decreases ps.len(),
{
    if ps.len() == 0 {
        None
    } else if ps.last().profile is Some {
        ps.last().profile
    } else {
        last_profile(ps.drop_last())
    }
}

/// The engine's merge and the webhook's fold collect the same trade and
/// income lists; they differ in keeping the first profile (engine) or the
/// last one (webhook).
pub proof fn lemma_engine_merge_and_override_fold(ps: Seq<PayloadModel>)
    ensures
        engine_merge(ps).spot_trades == override_fold(ps).spot_trades,
        engine_merge(ps).futures_income_history == override_fold(ps).futures_income_history,
        engine_merge(ps).profile == first_profile(ps),
        override_fold(ps).profile == last_profile(ps),
    decreases ps.len(),
{
    if ps.len() > 0 {
        lemma_engine_merge_and_override_fold(ps.drop_last());
    }
}

/// When no payload has a balance, the engine's merge has none.
pub proof fn lemma_engine_merge_no_balance(ps: Seq<PayloadModel>)
    requires
        forall|j: int| 0 <= j < ps.len() ==> (#[trigger] ps[j]).wallet_balance is None,
    ensures
        engine_merge(ps).wallet_balance is None,
    decreases ps.len(),
{
    if ps.len() > 0 {
        let q = ps.drop_last();
        assert forall|j: int| 0 <= j < q.len() implies (#[trigger] q[j]).wallet_balance is None by {
            assert(q[j] == ps[j]);
        }
        lemma_engine_merge_no_balance(q);
        assert(ps[ps.len() - 1].wallet_balance is None);
    }
}

/// The engine keeps the balance of the first payload that has one.
pub proof fn lemma_engine_merge_first_balance(ps: Seq<PayloadModel>, i: int)
    requires
        0 <= i < ps.len(),
        ps[i].wallet_balance is Some,
        forall|j: int| 0 <= j < i ==> (#[trigger] ps[j]).wallet_balance is None,
    ensures
        engine_merge(ps).wallet_balance == ps[i].wallet_balance,
    decreases ps.len(),
{
    let q = ps.drop_last();
    if i == ps.len() - 1 {
        assert forall|j: int| 0 <= j < q.len() implies (#[trigger] q[j]).wallet_balance is None by {
            assert(q[j] == ps[j]);
        }
        lemma_engine_merge_no_balance(q);
    } else {
        assert forall|j: int| 0 <= j < i implies (#[trigger] q[j]).wallet_balance is None by {
            assert(q[j] == ps[j]);
        }
        assert(q[i] == ps[i]);
        lemma_engine_merge_first_balance(q, i);
    }
}

/// When no payload has a profile, the engine's merge has none.
pub proof fn lemma_engine_merge_no_profile(ps: Seq<PayloadModel>)
    requires
        forall|j: int| 0 <= j < ps.len() ==> (#[trigger] ps[j]).profile is None,
    ensures
        engine_merge(ps).profile is None,
    decreases ps.len(),
{
    if ps.len() > 0 {
        let q = ps.drop_last();
        assert forall|j: int| 0 <= j < q.len() implies (#[trigger] q[j]).profile is None by {
            assert(q[j] == ps[j]);
        }
        lemma_engine_merge_no_profile(q);
        assert(ps[ps.len() - 1].profile is None);
    }
}

/// The engine keeps the profile of the first payload that has one.
pub proof fn lemma_engine_merge_first_profile(ps: Seq<PayloadModel>, i: int)
    requires
        0 <= i < ps.len(),
        ps[i].profile is Some,
        forall|j: int| 0 <= j < i ==> (#[trigger] ps[j]).profile is None,
    ensures
        engine_merge(ps).profile == ps[i].profile,
    decreases ps.len(),
{
    let q = ps.drop_last();
    if i == ps.len() - 1 {
        assert forall|j: int| 0 <= j < q.len() implies (#[trigger] q[j]).profile is None by {
            assert(q[j] == ps[j]);
        }
        lemma_engine_merge_no_profile(q);
    } else {
        assert forall|j: int| 0 <= j < i implies (#[trigger] q[j]).profile is None by {
            assert(q[j] == ps[j]);
        }
        assert(q[i] == ps[i]);
        lemma_engine_merge_first_profile(q, i);
    }
}

/// Merging a concatenation is merging each part, then combining the two as
/// one more step: the first profile and balance are kept, lists are joined.
pub proof fn lemma_engine_merge_concat(a: Seq<PayloadModel>, b: Seq<PayloadModel>)
    ensures
        engine_merge(a + b) == fill_step(engine_merge(a), engine_merge(b)),
    decreases b.len(),
{
    if b.len() == 0 {
        assert(a + b =~= a);
        let m = engine_merge(a);
        assert(fill_step(m, empty_payload()) =~= m);
    } else {
        lemma_engine_merge_concat(a, b.drop_last());
        assert((a + b).drop_last() =~= a + b.drop_last());
        assert((a + b).last() == b.last());
        let ma = engine_merge(a);
        let mb = engine_merge(b.drop_last());
        let p = b.last();
        match (ma.spot_trades, mb.spot_trades, p.spot_trades) {
            (Some(x), Some(y), Some(z)) => {
                assert((x + y) + z =~= x + (y + z));
            },
            _ => {},
        }
        match (ma.futures_income_history, mb.futures_income_history, p.futures_income_history) {
            (Some(x), Some(y), Some(z)) => {
                assert((x + y) + z =~= x + (y + z));
            },
            _ => {},
        }
        assert(fill_step(fill_step(ma, mb), p) =~= fill_step(ma, fill_step(mb, p)));
    }
}

/// The payloads of a sequence of proofs.
pub open spec fn proof_payloads(proofs: Seq<VerifiedProof>) -> Seq<PayloadModel> {
    proofs.map_values(|p: VerifiedProof| p.payload@)
}

/// The score components the engine gives to a merged payload.
pub open spec fn components_match(c: ScoreComponents, merged: PayloadModel) -> bool {
    &&& c.onchain_score == baseline_onchain_points()
    &&& c.asset_score == asset_points(merged)
    &&& c.behavior_score == behavior_points(merged)
    &&& c.history_score == baseline_history_points()
    &&& c.zktls_binance_payload matches Some(p) && p@ == merged
}

/// Computes a wallet's score from its verified proofs.
pub struct ScoringEngine {
    onchain_analyzer: OnchainAnalyzer,
    asset_scorer: AssetScorer,
    behavior_scorer: BehaviorScorer,
    history_scorer: HistoryScorer,
}

impl ScoringEngine {
    pub fn new() -> (r: Self) {
        ScoringEngine {
            onchain_analyzer: OnchainAnalyzer::new(),
            asset_scorer: AssetScorer::new(),
            behavior_scorer: BehaviorScorer::new(),
            history_scorer: HistoryScorer::new(),
        }
    }

    /// Merges the payloads of all proofs and scores the wallet; the merged
    /// payload is returned with the components.
    pub fn compute_score(&self, wallet: &str, proofs: &[VerifiedProof]) -> (r: Result<
        ScoreComponents,
        ScoringError,
    >)
        ensures
            r matches Ok(c) && components_match(c, engine_merge(proof_payloads(proofs@))),
            r matches Ok(c) && c.onchain_score <= 400 && c.asset_score <= 300 && c.behavior_score
                <= 200 && c.history_score <= 100,
    {
        let merged_payload = self.merge_binance_payloads(proofs);
        let onchain_score = match self.onchain_analyzer.analyze(wallet) {
            Ok(s) => s,
            Err(e) => return Err(e),
        };
        let asset_score = match self.asset_scorer.score(&merged_payload) {
            Ok(s) => s,
            Err(e) => return Err(e),
        };
        let behavior_score = match self.behavior_scorer.score(&merged_payload) {
            Ok(s) => s,
            Err(e) => return Err(e),
        };
        let history_score = match self.history_scorer.score(wallet) {
            Ok(s) => s,
            Err(e) => return Err(e),
        };
        Ok(
            ScoreComponents {
                onchain_score,
                asset_score,
                behavior_score,
                history_score,
                zktls_binance_payload: Some(merged_payload),
            },
        )
    }

    /// Merges the payloads of the proofs in order: the first profile and the
    /// first balance are kept, trade and income lists are concatenated.
    pub fn merge_binance_payloads(&self, proofs: &[VerifiedProof]) -> (r: BinanceProofPayload)
        ensures
            r@ == engine_merge(proof_payloads(proofs@)),
    {
        let mut merged = BinanceProofPayload::empty();
        let mut i: usize = 0;
        while i < proofs.len()
            invariant
                i <= proofs.len(),
                merged@ == engine_merge(proof_payloads(proofs@.take(i as int))),
            decreases proofs.len() - i,
        {
            let ghost before = merged@;
            assert(proof_payloads(proofs@.take(i + 1)).drop_last() =~= proof_payloads(
                proofs@.take(i as int),
            ));
            let payload = &proofs[i].payload;
            if merged.profile.is_none() && payload.profile.is_some() {
                merged.profile = match &payload.profile {
                    Some(p) => Some(p.clone()),
                    None => None,
                };
            }
            if merged.wallet_balance.is_none() && payload.wallet_balance.is_some() {
                merged.wallet_balance = match &payload.wallet_balance {
                    Some(w) => Some(w.clone()),
                    None => None,
                };
            }
            if let Some(trades) = &payload.spot_trades {
                let mut copy = crate::types::clone_trades(trades);
                let mut list = match merged.spot_trades.take() {
                    Some(l) => l,
                    None => Vec::new(),
                };
                list.append(&mut copy);
                merged.spot_trades = Some(list);
            }
            if let Some(income) = &payload.futures_income_history {
                let mut copy = crate::types::clone_incomes(income);
                let mut list = match merged.futures_income_history.take() {
                    Some(l) => l,
                    None => Vec::new(),
                };
                list.append(&mut copy);
                merged.futures_income_history = Some(list);
            }
            proof {
                assert(proof_payloads(proofs@.take(i + 1)).last() == proofs@[i as int].payload@);
                assert(merged@ =~= fill_step(before, proofs@[i as int].payload@));
            }
            i += 1;
        }
        assert(proofs@.take(proofs.len() as int) =~= proofs@);
        merged
    }
}

} // verus!
