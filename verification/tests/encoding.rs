use credit_scoring::config::Config;
use credit_scoring::encoding::{eq_ignore_ascii_case, parse_u16, to_hex_lower, trim_hex_prefixes};

#[test]
fn hex_lower_of_bytes() {
    assert_eq!(to_hex_lower(&[]), "");
    assert_eq!(to_hex_lower(&[0x00, 0x09, 0x0a, 0xf0, 0xff]), "00090af0ff");
}

#[test]
fn trim_removes_every_leading_0x() {
    assert_eq!(trim_hex_prefixes(b"0x0xab"), b"ab");
    assert_eq!(trim_hex_prefixes(b"0xab0x"), b"ab0x");
    assert_eq!(trim_hex_prefixes(b"0X12"), b"0X12");
    assert_eq!(trim_hex_prefixes(b"0x"), b"");
    assert_eq!(trim_hex_prefixes(b"0"), b"0");
}

#[test]
fn ascii_case_insensitive_equality() {
    assert!(eq_ignore_ascii_case("0xAbC", "0XaBc"));
    assert!(!eq_ignore_ascii_case("abc", "abd"));
    assert!(!eq_ignore_ascii_case("abc", "abcd"));
    assert!(eq_ignore_ascii_case("", ""));
    assert!(!eq_ignore_ascii_case("é", "É"));
}

#[test]
fn port_parsing_follows_std() {
    for text in ["0", "80", "+80", "00080", "65535", "65536", "", "+", "-", "-1", "8 0", "1e3", "99999999999"] {
        assert_eq!(parse_u16(text), text.parse::<u16>().ok(), "text {:?}", text);
    }
}

#[test]
fn config_defaults() {
    let c = Config::from_settings(None, None, None, None);
    assert_eq!(c.rpc_url, "https://api.mainnet-beta.solana.com");
    assert_eq!(c.keypair_path, "./id.json");
    assert_eq!(c.port, 10000);
    assert_eq!(c.credit_score_program_id, "5M7DFNUwLpR3eFvCMuKpukVNx6W6fQXz9hHYB8SxG7uy");
}

#[test]
fn config_settings() {
    let c = Config::from_settings(
        Some("http://localhost:8899".to_string()),
        Some("/keys/oracle.json".to_string()),
        Some("8080".to_string()),
        Some("11111111111111111111111111111111".to_string()),
    );
    assert_eq!(c.rpc_url, "http://localhost:8899");
    assert_eq!(c.keypair_path, "/keys/oracle.json");
    assert_eq!(c.port, 8080);
    assert_eq!(c.credit_score_program_id, "11111111111111111111111111111111");
    let bad = Config::from_settings(None, None, Some("eighty".to_string()), None);
    assert_eq!(bad.port, 10000);
}
