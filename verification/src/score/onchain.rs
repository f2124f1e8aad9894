//! Points for the wallet's on-chain activity.
use vstd::prelude::*;

use crate::score::ScoringError;

verus! {

/// The on-chain score given to every wallet while no chain data is analysed.
pub open spec fn baseline_onchain_points() -> u16 {
    200
}

/// Scores a wallet's on-chain activity.
pub struct OnchainAnalyzer;

impl OnchainAnalyzer {
    pub fn new() -> (r: Self) {
        OnchainAnalyzer
    }

    /// The base score, 200 of 400, for every wallet.
    pub fn analyze(&self, wallet: &str) -> (r: Result<u16, ScoringError>)
        ensures
            r == Ok::<u16, ScoringError>(baseline_onchain_points()),
    {
        Ok(200)
    }
}

} // verus!
