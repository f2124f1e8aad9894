//! Data carried between the webhook, the scorers and the score store.
//!
//! Monetary amounts (balances, prices, quantities, incomes) are fixed-point
//! integers counted in units of `1 / AMOUNT_SCALE` (1e-8) of the currency.
use vstd::prelude::*;

verus! {

/// Number of amount units in one whole unit of currency.
pub const AMOUNT_SCALE: i64 = 100_000_000;

/// A proof submitted by a wallet owner.
pub struct ProofSubmission {
    pub wallet: String,
    pub alias: String,
    pub proof_id: String,
    pub proof_blob: String,
    pub signature: Option<String>,
}

/// The answer to a proof submission.
pub struct ProofResponse {
    pub proof_hash: String,
    pub status: ProofStatus,
}

/// Where a proof stands in its life cycle.
#[derive(Clone, Copy, Debug, PartialEq, Eq, Structural)]
pub enum ProofStatus {
    Received,
    Verified,
    Rejected,
}

/// Account profile reported by the exchange.
#[derive(Debug)]
pub struct BinanceProfile {
    pub location: Option<String>,
    pub account_type: Option<String>,
}

/// Total balance reported by the exchange.
#[derive(Debug)]
pub struct WalletBalance {
    /// In amount units (see `AMOUNT_SCALE`).
    pub total_balance: i64,
    pub currency: String,
}

/// One executed spot trade.
#[derive(Debug)]
pub struct SpotTrade {
    pub symbol: String,
    /// In amount units (see `AMOUNT_SCALE`).
    pub price: i64,
    /// In amount units (see `AMOUNT_SCALE`).
    pub qty: i64,
    pub side: String,
    pub timestamp: i64,
}

/// One spot order.
#[derive(Debug)]
pub struct SpotOrder {
    pub symbol: String,
    pub status: String,
    /// In amount units (see `AMOUNT_SCALE`).
    pub price: i64,
    /// In amount units (see `AMOUNT_SCALE`).
    pub qty: i64,
    pub timestamp: i64,
}

/// One entry of the futures income history.
#[derive(Debug)]
pub struct FuturesIncome {
    pub symbol: String,
    pub income_type: String,
    /// In amount units (see `AMOUNT_SCALE`); negative for losses.
    pub amount: i64,
    pub timestamp: i64,
}

/// Everything the exchange proofs told about an account.
#[derive(Debug)]
pub struct BinanceProofPayload {
    pub profile: Option<BinanceProfile>,
    pub wallet_balance: Option<WalletBalance>,
    pub spot_trades: Option<Vec<SpotTrade>>,
    pub futures_income_history: Option<Vec<FuturesIncome>>,
}

/// The mathematical value of a `BinanceProofPayload`: its lists taken as sequences.
#[verifier::ext_equal]
pub ghost struct PayloadModel {
    pub profile: Option<BinanceProfile>,
    pub wallet_balance: Option<WalletBalance>,
    pub spot_trades: Option<Seq<SpotTrade>>,
    pub futures_income_history: Option<Seq<FuturesIncome>>,
}

/// An optional vector taken as an optional sequence.
pub open spec fn opt_seq<T>(o: Option<Vec<T>>) -> Option<Seq<T>> {
    match o {
        Some(v) => Some(v@),
        None => None,
    }
}

impl View for BinanceProofPayload {
    type V = PayloadModel;

    open spec fn view(&self) -> PayloadModel {
        PayloadModel {
            profile: self.profile,
            wallet_balance: self.wallet_balance,
            spot_trades: opt_seq(self.spot_trades),
            futures_income_history: opt_seq(self.futures_income_history),
        }
    }
}

/// The payload that says nothing.
pub open spec fn empty_payload() -> PayloadModel {
    PayloadModel {
        profile: None,
        wallet_balance: None,
        spot_trades: None,
        futures_income_history: None,
    }
}

/// The four partial scores of a wallet.
#[derive(Debug)]
pub struct ScoreComponents {
    /// 0 to 400.
    pub onchain_score: u16,
    /// 0 to 300.
    pub asset_score: u16,
    /// 0 to 200.
    pub behavior_score: u16,
    /// 0 to 100.
    pub history_score: u16,
    pub zktls_binance_payload: Option<BinanceProofPayload>,
}

/// The total score: the sum of the components, capped at 1000.
pub open spec fn spec_total_score(a: u16, b: u16, c: u16, d: u16) -> int {
    let s = a + b + c + d;
    if s > 1000 { 1000 } else { s }
}

/// `a + b`, stopping at `u16::MAX`.
pub open spec fn sat_add_u16(a: u16, b: u16) -> u16 {
    if a + b > u16::MAX { u16::MAX } else { (a + b) as u16 }
}

impl ScoreComponents {
    /// Sum of the four components, each addition saturating, then capped at 1000.
    pub fn total_score(&self) -> (r: u16)
        ensures
            r == spec_total_score(
                self.onchain_score,
                self.asset_score,
                self.behavior_score,
                self.history_score,
            ),
            r <= 1000,
    {
        let s = self.onchain_score.saturating_add(self.asset_score).saturating_add(
            self.behavior_score,
        ).saturating_add(self.history_score);
        if s < 1000 {
            s
        } else {
            1000
        }
    }
}

/// A stored credit score.
#[derive(Debug)]
pub struct CreditScore {
    pub user_wallet: String,
    pub score_total: u16,
    pub components: ScoreComponents,
    pub last_updated: i64,
    pub proof_hashes: Vec<String>,
    pub onchain_tx_sig: Option<String>,
}

/// A credit score as answered to a client.
#[derive(Debug)]
pub struct ScoreResponse {
    pub score_total: u16,
    pub components: ScoreComponents,
    pub last_updated: i64,
    pub onchain_tx_sig: Option<String>,
}

/// A proof whose payload has been accepted.
#[derive(Debug)]
pub struct VerifiedProof {
    pub proof_hash: String,
    pub alias: String,
    pub status: ProofStatus,
    pub verified_at: i64,
    pub payload: BinanceProofPayload,
}

/// The mathematical value of a `VerifiedProof`.
#[verifier::ext_equal]
pub ghost struct ProofModel {
    pub proof_hash: Seq<char>,
    pub alias: Seq<char>,
    pub status: ProofStatus,
    pub verified_at: i64,
    pub payload: PayloadModel,
}

impl View for VerifiedProof {
    type V = ProofModel;

    open spec fn view(&self) -> ProofModel {
        ProofModel {
            proof_hash: self.proof_hash@,
            alias: self.alias@,
            status: self.status,
            verified_at: self.verified_at,
            payload: self.payload@,
        }
    }
}

/// A copy of an optional string.
pub fn clone_opt_string(s: &Option<String>) -> (r: Option<String>)
    ensures
        r == *s,
{
    match s {
        Some(x) => Some(x.clone()),
        None => None,
    }
}

impl Clone for BinanceProfile {
    fn clone(&self) -> (r: Self)
        ensures
            r == *self,
    {
        BinanceProfile {
            location: clone_opt_string(&self.location),
            account_type: clone_opt_string(&self.account_type),
        }
    }
}

impl Clone for WalletBalance {
    fn clone(&self) -> (r: Self)
        ensures
            r == *self,
    {
        WalletBalance { total_balance: self.total_balance, currency: self.currency.clone() }
    }
}

impl Clone for SpotTrade {
    fn clone(&self) -> (r: Self)
        ensures
            r == *self,
    {
        SpotTrade {
            symbol: self.symbol.clone(),
            price: self.price,
            qty: self.qty,
            side: self.side.clone(),
            timestamp: self.timestamp,
        }
    }
}

impl Clone for SpotOrder {
    fn clone(&self) -> (r: Self)
        ensures
            r == *self,
    {
        SpotOrder {
            symbol: self.symbol.clone(),
            status: self.status.clone(),
            price: self.price,
            qty: self.qty,
            timestamp: self.timestamp,
        }
    }
}

impl Clone for FuturesIncome {
    fn clone(&self) -> (r: Self)
        ensures
            r == *self,
    {
        FuturesIncome {
            symbol: self.symbol.clone(),
            income_type: self.income_type.clone(),
            amount: self.amount,
            timestamp: self.timestamp,
        }
    }
}

/// A copy of a list of trades.
pub fn clone_trades(v: &Vec<SpotTrade>) -> (r: Vec<SpotTrade>)
    ensures
        r@ == v@,
{
    let mut r: Vec<SpotTrade> = Vec::new();
    let mut i: usize = 0;
    while i < v.len()
        invariant
            i <= v.len(),
            r@ == v@.take(i as int),
        decreases v.len() - i,
    {
        r.push(v[i].clone());
        i += 1;
    }
    r
}

/// A copy of a list of incomes.
pub fn clone_incomes(v: &Vec<FuturesIncome>) -> (r: Vec<FuturesIncome>)
    ensures
        r@ == v@,
{
    let mut r: Vec<FuturesIncome> = Vec::new();
    let mut i: usize = 0;
    while i < v.len()
        invariant
            i <= v.len(),
            r@ == v@.take(i as int),
        decreases v.len() - i,
    {
        r.push(v[i].clone());
        i += 1;
    }
    r
}

impl BinanceProofPayload {
    /// The payload that says nothing.
    pub fn empty() -> (r: Self)
        ensures
            r@ == empty_payload(),
    {
        BinanceProofPayload {
            profile: None,
            wallet_balance: None,
            spot_trades: None,
            futures_income_history: None,
        }
    }

    /// A copy of the payload.
    pub fn duplicate(&self) -> (r: Self)
        ensures
            r@ == self@,
    {
        BinanceProofPayload {
            profile: match &self.profile {
                Some(p) => Some(p.clone()),
                None => None,
            },
            wallet_balance: match &self.wallet_balance {
                Some(w) => Some(w.clone()),
                None => None,
            },
            spot_trades: match &self.spot_trades {
                Some(t) => Some(clone_trades(t)),
                None => None,
            },
            futures_income_history: match &self.futures_income_history {
                Some(f) => Some(clone_incomes(f)),
                None => None,
            },
        }
    }
}

impl Clone for BinanceProofPayload {
    fn clone(&self) -> (r: Self)
        ensures
            r@ == self@,
    {
        self.duplicate()
    }
}

impl Clone for VerifiedProof {
    fn clone(&self) -> (r: Self)
        ensures
            r@ == self@,
    {
        VerifiedProof {
            proof_hash: self.proof_hash.clone(),
            alias: self.alias.clone(),
            status: self.status,
            verified_at: self.verified_at,
            payload: self.payload.duplicate(),
        }
    }
}

impl Default for BinanceProofPayload {
    fn default() -> (r: Self)
        ensures
            r@ == empty_payload(),
    {
        BinanceProofPayload::empty()
    }
}

} // verus!
