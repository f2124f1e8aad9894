//! Request handling: the exchange webhook and proof submission.
pub mod binance;
pub mod proofs;
