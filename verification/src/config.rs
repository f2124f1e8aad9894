//! Service settings and their defaults.
use vstd::prelude::*;

use crate::encoding::{parse_u16, parse_u16_spec};

verus! {

/// The service settings.
pub struct Config {
    pub rpc_url: String,
    pub keypair_path: String,
    pub port: u16,
    pub credit_score_program_id: String,
}

/// A setting's text, or its default when it is not set.
pub open spec fn setting_or(value: Option<String>, default: Seq<char>) -> Seq<char> {
    match value {
        Some(v) => v@,
        None => default,
    }
}

/// The port: the setting read as a decimal `u16`, 10000 when it is not set
/// or does not parse.
pub open spec fn port_setting(value: Option<String>) -> u16 {
    match value {
        Some(v) => match parse_u16_spec(vstd::utf8::encode_utf8(v@)) {
            Some(p) => p,
            None => 10000,
        },
        None => 10000,
    }
}

/// A setting's value, or `default` when it is not set.
fn string_or(value: Option<String>, default: &str) -> (r: String)
    ensures
        r@ == setting_or(value, default@),
{
    match value {
        Some(v) => v,
        None => String::from_str(default),
    }
}

impl Config {
    /// Builds the settings from the values read from the environment, each
    /// `None` when unset: the RPC URL defaults to mainnet, the keypair path
    /// to `./id.json`, the port to 10000 and the program id to the deployed
    /// credit score program.
    pub fn from_settings(
        rpc_url: Option<String>,
        keypair_path: Option<String>,
        port: Option<String>,
        credit_score_program_id: Option<String>,
    ) -> (r: Config)
        ensures
            r.rpc_url@ == setting_or(rpc_url, "https://api.mainnet-beta.solana.com"@),
            r.keypair_path@ == setting_or(keypair_path, "./id.json"@),
            r.port == port_setting(port),
            r.credit_score_program_id@ == setting_or(
                credit_score_program_id,
                "5M7DFNUwLpR3eFvCMuKpukVNx6W6fQXz9hHYB8SxG7uy"@,
            ),
    {
        let port_value: u16 = match &port {
            Some(text) => match parse_u16(text.as_str()) {
                Some(p) => p,
                None => 10000,
            },
            None => 10000,
        };
        Config {
            rpc_url: string_or(rpc_url, "https://api.mainnet-beta.solana.com"),
            keypair_path: string_or(keypair_path, "./id.json"),
            port: port_value,
            credit_score_program_id: string_or(
                credit_score_program_id,
                "5M7DFNUwLpR3eFvCMuKpukVNx6W6fQXz9hHYB8SxG7uy",
            ),
        }
    }
}

} // verus!
