//! Credit scoring of exchange accounts from zkTLS proofs.

pub mod clock;
pub mod config;
pub mod digest;
pub mod encoding;
pub mod ethereum;
pub mod handlers;
pub mod score;
pub mod solana_client;
pub mod store;
pub mod types;
