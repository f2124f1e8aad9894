use credit_scoring::encoding::{eq_ignore_ascii_case, trim_hex_prefixes};
use credit_scoring::handlers::binance::merge_binance_payloads;
use credit_scoring::score::asset::AssetScorer;
use credit_scoring::score::behavior::{count_liquidations, realized_pnl_sum, BehaviorScorer};
use credit_scoring::score::ScoringEngine;
use credit_scoring::types::{
    BinanceProfile, BinanceProofPayload, FuturesIncome, ProofStatus, SpotTrade, VerifiedProof,
    WalletBalance, AMOUNT_SCALE,
};

fn income(kind: &str, whole: i64) -> FuturesIncome {
    FuturesIncome { symbol: "S".to_string(), income_type: kind.to_string(), amount: whole * AMOUNT_SCALE, timestamp: 0 }
}

fn trade(q: i64) -> SpotTrade {
    SpotTrade { symbol: "S".to_string(), price: 1, qty: q, side: "BUY".to_string(), timestamp: 0 }
}

fn payload(loc: Option<&str>, trades: Option<Vec<i64>>) -> BinanceProofPayload {
    let mut p = BinanceProofPayload::empty();
    p.profile = loc.map(|l| BinanceProfile { location: Some(l.to_string()), account_type: None });
    p.spot_trades = trades.map(|v| v.into_iter().map(trade).collect());
    p
}

fn stored(p: BinanceProofPayload) -> VerifiedProof {
    VerifiedProof { proof_hash: "h".to_string(), alias: "a".to_string(), status: ProofStatus::Verified, verified_at: 0, payload: p }
}

fn qtys(p: &BinanceProofPayload) -> Option<Vec<i64>> {
    p.spot_trades.as_ref().map(|v| v.iter().map(|t| t.qty).collect())
}

#[test]
fn balance_points_never_fall_as_balance_grows() {
    let mut last = 0;
    for whole in [-10, 0, 999, 1_000, 5_000, 10_000, 49_999, 50_000, 1_000_000] {
        let mut p = BinanceProofPayload::empty();
        p.wallet_balance = Some(WalletBalance { total_balance: whole * AMOUNT_SCALE, currency: "USDT".to_string() });
        let s = AssetScorer::new().score(&p).ok().unwrap();
        assert!(s >= last);
        last = s;
    }
}

#[test]
fn profit_and_liquidations_add_over_concatenation() {
    let a = vec![income("REALIZED_PNL", 5), income("REALIZED_PNL", -2_000)];
    let b = vec![income("REALIZED_PNL", 7), income("FUNDING_FEE", -3_000)];
    let mut ab = Vec::new();
    for x in a.iter().chain(b.iter()) {
        ab.push(x.clone());
    }
    assert_eq!(realized_pnl_sum(&ab), realized_pnl_sum(&a) + realized_pnl_sum(&b));
    assert_eq!(count_liquidations(&ab), count_liquidations(&a) + count_liquidations(&b));
    assert_eq!(count_liquidations(&ab), 2);
}

#[test]
fn more_liquidations_never_raise_behavior_score() {
    let mut p = BinanceProofPayload::empty();
    p.futures_income_history = Some(vec![income("REALIZED_PNL", 200)]);
    let mut q = BinanceProofPayload::empty();
    q.futures_income_history = Some(vec![income("REALIZED_PNL", 200), income("INSURANCE_CLEAR", -2_000)]);
    let sp = BehaviorScorer::new().score(&p).ok().unwrap();
    let sq = BehaviorScorer::new().score(&q).ok().unwrap();
    assert_eq!(sp, 30);
    assert_eq!(sq, 10);
}

#[test]
fn engine_merge_lists_match_webhook_fold() {
    let parts = vec![
        payload(Some("A"), Some(vec![1])),
        payload(None, None),
        payload(Some("B"), Some(vec![2, 3])),
    ];
    let proofs: Vec<VerifiedProof> = parts.iter().map(|p| stored(p.clone())).collect();
    let engine = ScoringEngine::new().merge_binance_payloads(&proofs);
    let mut fold = BinanceProofPayload::empty();
    for p in parts {
        fold = merge_binance_payloads(fold, p);
    }
    assert_eq!(qtys(&engine), qtys(&fold));
    assert_eq!(engine.profile.unwrap().location.as_deref(), Some("A"));
    assert_eq!(fold.profile.unwrap().location.as_deref(), Some("B"));
}

#[test]
fn merging_nothing_changes_nothing() {
    let p = merge_binance_payloads(payload(Some("A"), Some(vec![4])), BinanceProofPayload::empty());
    assert_eq!(qtys(&p), Some(vec![4]));
    assert_eq!(p.profile.unwrap().location.as_deref(), Some("A"));
    let q = merge_binance_payloads(BinanceProofPayload::empty(), payload(None, None));
    assert!(q.spot_trades.is_none() && q.profile.is_none());
}

#[test]
fn trimming_twice_is_trimming_once() {
    for text in [&b"0x0x0xab"[..], b"ab", b"0x", b"00x"] {
        let once = trim_hex_prefixes(text);
        assert_eq!(trim_hex_prefixes(once), once);
    }
}

#[test]
fn case_insensitive_equality_is_symmetric() {
    for (a, b) in [("0xAB", "0xab"), ("x", "y"), ("Q", "q")] {
        assert_eq!(eq_ignore_ascii_case(a, b), eq_ignore_ascii_case(b, a));
        assert!(eq_ignore_ascii_case(a, a));
    }
}

#[test]
fn merging_a_concatenation_merges_the_parts() {
    let all = vec![
        stored(payload(None, Some(vec![1]))),
        stored(payload(Some("A"), None)),
        stored(payload(Some("B"), Some(vec![2]))),
        stored(payload(Some("C"), Some(vec![3]))),
    ];
    let engine = ScoringEngine::new();
    let whole = engine.merge_binance_payloads(&all);
    let first = engine.merge_binance_payloads(&all[..2]);
    let second = engine.merge_binance_payloads(&all[2..]);
    let mut joined = qtys(&first).unwrap_or_default();
    joined.extend(qtys(&second).unwrap_or_default());
    assert_eq!(qtys(&whole), Some(joined));
    assert_eq!(whole.profile.unwrap().location.as_deref(), Some("A"));
    assert_eq!(first.profile.unwrap().location.as_deref(), Some("A"));
}
