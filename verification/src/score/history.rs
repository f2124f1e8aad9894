//! Points for the wallet's history with the lending protocol.
use vstd::prelude::*;

use crate::score::ScoringError;

verus! {

/// The history score given to every wallet while no protocol history is kept.
pub open spec fn baseline_history_points() -> u16 {
    50
}

/// Scores a wallet's repayment history.
pub struct HistoryScorer;

impl HistoryScorer {
    pub fn new() -> (r: Self) {
        HistoryScorer
    }

    /// The baseline score, 50 of 100, for every wallet.
    pub fn score(&self, wallet: &str) -> (r: Result<u16, ScoringError>)
        ensures
            r == Ok::<u16, ScoringError>(baseline_history_points()),
    {
        Ok(50)
    }
}

} // verus!
