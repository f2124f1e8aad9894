//! Points for what the account holds and how varied its activity is.
use vstd::prelude::*;

use crate::score::ScoringError;
use crate::types::{BinanceProofPayload, PayloadModel, AMOUNT_SCALE};

verus! {

/// Points for a balance given in amount units: 120, 90, 30 or 10.
pub open spec fn balance_points(balance: int) -> int {
    if balance >= 50_000 * AMOUNT_SCALE {
        120
    } else if balance >= 10_000 * AMOUNT_SCALE {
        90
    } else if balance >= 1_000 * AMOUNT_SCALE {
        30
    } else {
        10
    }
}

/// 10 points for a profile, 20 for any spot trade, 20 for any futures income.
pub open spec fn diversity_points(p: PayloadModel) -> int {
    (if p.profile is Some { 10int } else { 0int }) + (if p.spot_trades matches Some(t)
        && t.len() > 0 {
        20int
    } else {
        0int
    }) + (if p.futures_income_history matches Some(f) && f.len() > 0 {
        20int
    } else {
        0int
    })
}

/// The asset score of a payload: balance points (none without a balance)
/// plus diversity points, capped at 300.
pub open spec fn asset_points(p: PayloadModel) -> int {
    let s = (match p.wallet_balance {
        Some(w) => balance_points(w.total_balance as int),
        None => 0,
    }) + diversity_points(p);
    if s > 300 {
        300
    } else {
        s
    }
}

/// A larger balance never earns fewer points.
pub proof fn lemma_balance_points_monotone(a: int, b: int)
    requires
        a <= b,
    ensures
        balance_points(a) <= balance_points(b),
{
}

/// Each kind of activity earns its points on its own: a non-empty futures
/// income history adds exactly 20 points to the asset score of any payload
/// that has none, a non-empty trade list adds 20 to one that has none, and a
/// profile adds 10 to one that has none, whatever else the payload holds.
pub proof fn lemma_activity_points_independent(
    p: PayloadModel,
    incomes: Seq<crate::types::FuturesIncome>,
    trades: Seq<crate::types::SpotTrade>,
    profile: crate::types::BinanceProfile,
)
    requires
        incomes.len() > 0,
        trades.len() > 0,
    ensures
        asset_points(PayloadModel { futures_income_history: Some(incomes), ..p }) == asset_points(
            PayloadModel { futures_income_history: None, ..p },
        ) + 20,
        asset_points(PayloadModel { spot_trades: Some(trades), ..p }) == asset_points(
            PayloadModel { spot_trades: None, ..p },
        ) + 20,
        asset_points(PayloadModel { profile: Some(profile), ..p }) == asset_points(
            PayloadModel { profile: None, ..p },
        ) + 10,
        asset_points(PayloadModel { futures_income_history: Some(Seq::empty()), ..p })
            == asset_points(PayloadModel { futures_income_history: None, ..p }),
{
}

/// The asset score lies in 0..=170: at most 120 for the balance and 50 for activity.
pub proof fn lemma_asset_points_range(p: PayloadModel)
    ensures
        0 <= asset_points(p) <= 170,
        p.wallet_balance is None ==> asset_points(p) <= 50,
{
}

/// Scores the assets shown by the exchange proofs.
pub struct AssetScorer;

impl AssetScorer {
    pub fn new() -> (r: Self) {
        AssetScorer
    }

    /// The asset score of the payload; it never fails.
    pub fn score(&self, payload: &BinanceProofPayload) -> (r: Result<u16, ScoringError>)
        ensures
            r matches Ok(s) && s == asset_points(payload@),
            r matches Ok(s) && s <= 170,
    {
        let mut score: u16 = 0;
        if let Some(balance) = &payload.wallet_balance {
            score = score + self.score_balance(balance.total_balance);
        }
        score = score + self.score_diversity(payload);
        Ok(if score < 300 {
            score
        } else {
            300
        })
    }

    fn score_balance(&self, balance: i64) -> (r: u16)
        ensures
            r == balance_points(balance as int),
    {
        if balance >= 50_000 * AMOUNT_SCALE {
            120
        } else if balance >= 10_000 * AMOUNT_SCALE {
            90
        } else if balance >= 1_000 * AMOUNT_SCALE {
            30
        } else {
            10
        }
    }

    fn score_diversity(&self, payload: &BinanceProofPayload) -> (r: u16)
        ensures
            r == diversity_points(payload@),
    {
        let mut points: u16 = 0;
        if payload.profile.is_some() {
            points = points + 10;
        }
        if let Some(trades) = &payload.spot_trades {
            if !trades.is_empty() {
                points = points + 20;
            }
        }
        if let Some(income) = &payload.futures_income_history {
            if !income.is_empty() {
                points = points + 20;
            }
        }
        points
    }
}

} // verus!
