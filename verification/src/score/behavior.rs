//! Points for trading behaviour: realized profit (0-100), trade frequency
//! (0-60) and a liquidation penalty (down to -60).
use vstd::prelude::*;

use crate::score::ScoringError;
use crate::types::{BinanceProofPayload, FuturesIncome, PayloadModel, SpotTrade, AMOUNT_SCALE};

verus! {

/// Sum of the amounts of the incomes whose type is `REALIZED_PNL`.
pub open spec fn realized_pnl_total(incomes: Seq<FuturesIncome>) -> int
    decreases incomes.len(),
{
    if incomes.len() == 0 {
        0
    } else {
        realized_pnl_total(incomes.drop_last()) + if incomes.last().income_type@
            == "REALIZED_PNL"@ {
            incomes.last().amount as int
        } else {
            0int
        }
    }
}

/// Number of incomes below -1000 units of currency (taken as liquidations).
pub open spec fn liquidation_count(incomes: Seq<FuturesIncome>) -> nat
    decreases incomes.len(),
{
    if incomes.len() == 0 {
        0
    } else {
        liquidation_count(incomes.drop_last()) + if incomes.last().amount < -1000
            * AMOUNT_SCALE {
            1nat
        } else {
            0nat
        }
    }
}

/// Points for a realized profit total in amount units: 100, 60, 30, 10 or 0.
pub open spec fn pnl_points(total: int) -> int {
    if total >= 10_000 * AMOUNT_SCALE {
        100
    } else if total >= 1_000 * AMOUNT_SCALE {
        60
    } else if total >= 100 * AMOUNT_SCALE {
        30
    } else if total >= 0 {
        10
    } else {
        0
    }
}

/// Points for a trade count: 60, 40, 20 or 5.
pub open spec fn frequency_points(count: i32) -> int {
    if count >= 100 {
        60
    } else if count >= 50 {
        40
    } else if count >= 10 {
        20
    } else {
        5
    }
}

/// Profit points of a payload (none without an income history).
pub open spec fn payload_pnl_points(p: PayloadModel) -> int {
    match p.futures_income_history {
        Some(f) => pnl_points(realized_pnl_total(f)),
        None => 0,
    }
}

/// Frequency points of a payload (none without a trade list); the trade
/// count is taken as an `i32`.
pub open spec fn payload_frequency_points(p: PayloadModel) -> int {
    match p.spot_trades {
        Some(t) => frequency_points(t.len() as i32),
        None => 0,
    }
}

/// Liquidations of a payload (none without an income history).
pub open spec fn payload_liquidations(p: PayloadModel) -> nat {
    match p.futures_income_history {
        Some(f) => liquidation_count(f),
        None => 0,
    }
}

/// The liquidation penalty: 20 points per liquidation, at most 60 points.
pub open spec fn liquidation_penalty_points(liquidations: nat) -> int {
    if liquidations >= 3 {
        60
    } else {
        20 * liquidations as int
    }
}

/// The behaviour score: profit and frequency points, minus the liquidation
/// penalty, clamped to 0..=200.
pub open spec fn behavior_points(p: PayloadModel) -> int {
    let s = payload_pnl_points(p) + payload_frequency_points(p) - liquidation_penalty_points(
        payload_liquidations(p),
    );
    if s < 0 {
        0
    } else if s > 200 {
        200
    } else {
        s
    }
}

/// A larger realized profit never earns fewer points.
pub proof fn lemma_pnl_points_monotone(a: int, b: int)
    requires
        a <= b,
    ensures
        pnl_points(a) <= pnl_points(b),
{
}

/// Profit points lie in 0..=100, and a net loss earns none.
pub proof fn lemma_pnl_points_range(total: int)
    ensures
        0 <= pnl_points(total) <= 100,
        total < 0 ==> pnl_points(total) == 0,
        total >= 0 ==> pnl_points(total) >= 10,
{
}

/// A payload's profit points never lower its score: the behaviour score is
/// at least its frequency points minus the liquidation penalty, and at most
/// 100 more than that.
pub proof fn lemma_behavior_points_bounds(p: PayloadModel)
    ensures
        behavior_points(p) >= payload_frequency_points(p) - liquidation_penalty_points(
            payload_liquidations(p),
        ),
        behavior_points(p) <= payload_frequency_points(p) + 100,
        0 <= behavior_points(p) <= 160,
{
    match p.futures_income_history {
        Some(f) => lemma_pnl_points_range(realized_pnl_total(f)),
        None => {},
    }
}

/// More trades never earn fewer points.
pub proof fn lemma_frequency_points_monotone(a: i32, b: i32)
    requires
        a <= b,
    ensures
        frequency_points(a) <= frequency_points(b),
{
}

/// The realized profit of concatenated income lists is the sum of their profits.
pub proof fn lemma_realized_pnl_total_concat(s: Seq<FuturesIncome>, t: Seq<FuturesIncome>)
    ensures
        realized_pnl_total(s + t) == realized_pnl_total(s) + realized_pnl_total(t),
    decreases t.len(),
{
    if t.len() == 0 {
        assert(s + t =~= s);
    } else {
        lemma_realized_pnl_total_concat(s, t.drop_last());
        assert((s + t).drop_last() =~= s + t.drop_last());
    }
}

/// The liquidations of concatenated income lists add up.
pub proof fn lemma_liquidation_count_concat(s: Seq<FuturesIncome>, t: Seq<FuturesIncome>)
    ensures
        liquidation_count(s + t) == liquidation_count(s) + liquidation_count(t),
    decreases t.len(),
{
    if t.len() == 0 {
        assert(s + t =~= s);
    } else {
        lemma_liquidation_count_concat(s, t.drop_last());
        assert((s + t).drop_last() =~= s + t.drop_last());
    }
}

/// The liquidation penalty never exceeds 60 points.
pub proof fn lemma_liquidation_penalty_capped(n: nat)
    ensures
        0 <= liquidation_penalty_points(n) <= 60,
        n <= 3 ==> liquidation_penalty_points(n) == 20 * n,
{
}

/// With the same profit and trade count, more liquidations never raise the score.
pub proof fn lemma_liquidations_never_raise_score(p: PayloadModel, q: PayloadModel)
    requires
        payload_pnl_points(p) == payload_pnl_points(q),
        payload_frequency_points(p) == payload_frequency_points(q),
        payload_liquidations(p) <= payload_liquidations(q),
    ensures
        behavior_points(q) <= behavior_points(p),
{
}

/// Scores trading behaviour.
pub struct BehaviorScorer;

impl BehaviorScorer {
    pub fn new() -> (r: Self) {
        BehaviorScorer
    }

    /// The behaviour score of the payload; it never fails.
    pub fn score(&self, payload: &BinanceProofPayload) -> (r: Result<u16, ScoringError>)
        ensures
            r matches Ok(s) && s == behavior_points(payload@),
            r matches Ok(s) && s <= 200,
    {
        let mut score: i32 = 0;
        score = score + self.score_pnl(payload);
        score = score + self.score_frequency(payload);
        score = score + self.liquidation_penalty(payload);
        let clamped: i32 = if score < 0 {
            0
        } else if score > 200 {
            200
        } else {
            score
        };
        Ok(clamped as u16)
    }

    fn score_pnl(&self, payload: &BinanceProofPayload) -> (r: i32)
        ensures
            r == payload_pnl_points(payload@),
    {
        if let Some(income) = &payload.futures_income_history {
            let total = realized_pnl_sum(income);
            if total >= 10_000 * (AMOUNT_SCALE as i128) {
                100
            } else if total >= 1_000 * (AMOUNT_SCALE as i128) {
                60
            } else if total >= 100 * (AMOUNT_SCALE as i128) {
                30
            } else if total >= 0 {
                10
            } else {
                0
            }
        } else {
            0
        }
    }

    fn score_frequency(&self, payload: &BinanceProofPayload) -> (r: i32)
        ensures
            r == payload_frequency_points(payload@),
    {
        if let Some(trades) = &payload.spot_trades {
            let trade_count = trades.len() as i32;
            if trade_count >= 100 {
                60
            } else if trade_count >= 50 {
                40
            } else if trade_count >= 10 {
                20
            } else {
                5
            }
        } else {
            0
        }
    }

    /// Minus 20 points per liquidation, at most minus 60.
    fn liquidation_penalty(&self, payload: &BinanceProofPayload) -> (r: i32)
        ensures
            r == -liquidation_penalty_points(payload_liquidations(payload@)),
            -60 <= r <= 0,
    {
        if let Some(income) = &payload.futures_income_history {
            let n = count_liquidations(income);
            let liquidation_count: i32 = if n >= 3 {
                3
            } else {
                n as i32
            };
            -liquidation_count * 20
        } else {
            0
        }
    }
}

/// Sum of the realized profit amounts of an income list.
pub fn realized_pnl_sum(incomes: &Vec<FuturesIncome>) -> (r: i128)
    ensures
        r == realized_pnl_total(incomes@),
{
    let realized = String::from_str("REALIZED_PNL");
    let mut total: i128 = 0;
    let mut i: usize = 0;
    while i < incomes.len()
        invariant
            i <= incomes.len(),
            realized@ == "REALIZED_PNL"@,
            total == realized_pnl_total(incomes@.take(i as int)),
            -(i as int) * 0x8000_0000_0000_0000 <= total <= (i as int) * 0x8000_0000_0000_0000,
        decreases incomes.len() - i,
    {
        assert(incomes@.take(i + 1).drop_last() =~= incomes@.take(i as int));
        let income = &incomes[i];
        if income.income_type == realized {
            total = total + income.amount as i128;
        }
        i += 1;
    }
    assert(incomes@.take(incomes.len() as int) =~= incomes@);
    total
}

/// Number of incomes below -1000 units of currency.
pub fn count_liquidations(incomes: &Vec<FuturesIncome>) -> (r: usize)
    ensures
        r == liquidation_count(incomes@),
{
    let mut n: usize = 0;
    let mut i: usize = 0;
    while i < incomes.len()
        invariant
            i <= incomes.len(),
            n == liquidation_count(incomes@.take(i as int)),
            n <= i,
        decreases incomes.len() - i,
    {
        assert(incomes@.take(i + 1).drop_last() =~= incomes@.take(i as int));
        if incomes[i].amount < -1000 * AMOUNT_SCALE {
            n = n + 1;
        }
        i += 1;
    }
    assert(incomes@.take(incomes.len() as int) =~= incomes@);
    n
}

} // verus!
