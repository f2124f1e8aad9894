use alloy_signer::k256::ecdsa::SigningKey;
use credit_scoring::handlers::binance::{
    address_to_text, allowlist_contains, generate_proof, merge_binance_payloads, process_share,
    proof_from_digest, share_action, share_signer, signer_from_recovery, webhook_reply, ShareAction,
    ShareSigner, WebhookShare,
};
use credit_scoring::types::{
    BinanceProfile, BinanceProofPayload, ProofStatus, SpotTrade, WalletBalance,
};

fn trade(q: i64) -> SpotTrade {
    SpotTrade { symbol: "BNBUSDT".to_string(), price: 1, qty: q, side: "SELL".to_string(), timestamp: q }
}

fn with_profile(location: &str) -> BinanceProofPayload {
    let mut p = BinanceProofPayload::empty();
    p.profile = Some(BinanceProfile { location: Some(location.to_string()), account_type: None });
    p
}

#[test]
fn merge_replaces_profile_and_balance_and_appends_lists() {
    let mut base = with_profile("SG");
    base.wallet_balance = Some(WalletBalance { total_balance: 1, currency: "USDT".to_string() });
    base.spot_trades = Some(vec![trade(1)]);
    let mut update = with_profile("JP");
    update.spot_trades = Some(vec![trade(2), trade(3)]);
    let merged = merge_binance_payloads(base, update);
    assert_eq!(merged.profile.unwrap().location.as_deref(), Some("JP"));
    assert_eq!(merged.wallet_balance.unwrap().total_balance, 1);
    let qtys: Vec<i64> = merged.spot_trades.unwrap().iter().map(|t| t.qty).collect();
    assert_eq!(qtys, vec![1, 2, 3]);
    assert!(merged.futures_income_history.is_none());
}

#[test]
fn merge_into_empty_gives_the_fragment() {
    let mut update = with_profile("JP");
    update.spot_trades = Some(vec![trade(7)]);
    let merged = merge_binance_payloads(BinanceProofPayload::default(), update);
    assert_eq!(merged.profile.unwrap().location.as_deref(), Some("JP"));
    assert_eq!(merged.spot_trades.unwrap().len(), 1);
}

#[test]
fn merge_is_associative_on_lists() {
    let mk = |q: i64| {
        let mut p = BinanceProofPayload::empty();
        p.spot_trades = Some(vec![trade(q)]);
        p
    };
    let left = merge_binance_payloads(merge_binance_payloads(mk(1), mk(2)), mk(3));
    let right = merge_binance_payloads(mk(1), merge_binance_payloads(mk(2), mk(3)));
    let l: Vec<i64> = left.spot_trades.unwrap().iter().map(|t| t.qty).collect();
    let r: Vec<i64> = right.spot_trades.unwrap().iter().map(|t| t.qty).collect();
    assert_eq!(l, r);
    assert_eq!(l, vec![1, 2, 3]);
}

#[test]
fn address_text_is_lower_hex_with_prefix() {
    let mut a = [0u8; 20];
    a[0] = 0xAB;
    a[19] = 0x0f;
    assert_eq!(address_to_text(&a), "0xab0000000000000000000000000000000000000f");
}

#[test]
fn allowlist_ignores_ascii_case() {
    let keys = vec!["0xAbCdEf".to_string(), "0x1234".to_string()];
    assert!(allowlist_contains(&keys, "0xabcdef"));
    assert!(allowlist_contains(&keys, "0X1234"));
    assert!(!allowlist_contains(&keys, "0x12345"));
    assert!(!allowlist_contains(&Vec::new(), "0x1234"));
}

#[test]
fn unsigned_shares() {
    assert!(matches!(share_signer(&None, &Some("{}".to_string())), ShareSigner::Unsigned));
    assert!(matches!(share_signer(&Some("0x00".to_string()), &None), ShareSigner::Unsigned));
}

#[test]
fn signature_that_is_not_hex() {
    let r = share_signer(&Some("0xzz".to_string()), &Some("{}".to_string()));
    assert!(matches!(r, ShareSigner::InvalidSignatureHex));
    let r = share_signer(&Some("0xabc".to_string()), &Some("{}".to_string()));
    assert!(matches!(r, ShareSigner::InvalidSignatureHex));
}

#[test]
fn signature_of_wrong_length_is_unrecovered() {
    let r = share_signer(&Some("0x0011".to_string()), &Some("{}".to_string()));
    assert!(matches!(r, ShareSigner::Unrecovered));
}

fn sign_share(key: &SigningKey, message: &str) -> String {
    let once = alloy_primitives::utils::eip191_hash_message(message.as_bytes());
    let twice = alloy_primitives::utils::eip191_hash_message(once.as_slice());
    let (sig, recid) = key.sign_prehash_recoverable(twice.as_slice()).unwrap();
    let mut bytes = sig.to_bytes().to_vec();
    bytes.push(27 + recid.to_byte());
    format!("0x{}", hex::encode(bytes))
}

#[test]
fn signer_is_recovered_from_a_signed_share() {
    let key = SigningKey::from_slice(&[7u8; 32]).unwrap();
    let expected = format!("{:?}", alloy_primitives::Address::from_private_key(&key));
    let message = "{\"nonce\":42}".to_string();
    let signature = sign_share(&key, &message);
    match share_signer(&Some(signature.clone()), &Some(message.clone())) {
        ShareSigner::Recovered(address) => assert_eq!(address, expected),
        _ => panic!("signer not recovered"),
    }
    // A doubled prefix is trimmed too.
    let doubled = format!("0x{}", signature);
    match share_signer(&Some(doubled), &Some(message)) {
        ShareSigner::Recovered(address) => assert_eq!(address, expected),
        _ => panic!("signer not recovered"),
    }
}

#[test]
fn signer_of_another_message_differs() {
    let key = SigningKey::from_slice(&[9u8; 32]).unwrap();
    let expected = format!("{:?}", alloy_primitives::Address::from_private_key(&key));
    let signature = sign_share(&key, "one");
    match share_signer(&Some(signature), &Some("two".to_string())) {
        ShareSigner::Recovered(address) => assert_ne!(address, expected),
        ShareSigner::Unrecovered => {}
        _ => panic!("unexpected outcome"),
    }
}

#[test]
fn process_share_merges_and_decides() {
    let mut fragment = BinanceProofPayload::empty();
    fragment.spot_trades = Some(vec![trade(5)]);
    let share = WebhookShare { payload: Some(fragment), signature: None, message: None, hash: None };
    let (merged, signer) = process_share(with_profile("SG"), share);
    assert!(matches!(signer, ShareSigner::Unsigned));
    assert_eq!(merged.profile.unwrap().location.as_deref(), Some("SG"));
    assert_eq!(merged.spot_trades.unwrap().len(), 1);
    let share = WebhookShare { payload: None, signature: None, message: None, hash: None };
    let (merged, _) = process_share(with_profile("SG"), share);
    assert!(merged.spot_trades.is_none());
}

#[test]
fn proof_hash_is_hex_sha256_of_json() {
    let before = chrono::Utc::now().timestamp();
    let proof = generate_proof(BinanceProofPayload::empty(), "{}", "binance_combined");
    assert_eq!(proof.proof_hash, "44136fa355b3678a1146ad16f7e8649e94fb4fc21fe77e8310c060f61caaff8a");
    assert_eq!(proof.alias, "binance_combined");
    assert_eq!(proof.status, ProofStatus::Verified);
    assert!(proof.verified_at >= before);
    let other = generate_proof(BinanceProofPayload::empty(), "{\"profile\":null}", "x");
    assert_ne!(other.proof_hash, proof.proof_hash);
    assert_eq!(other.proof_hash.len(), 64);
}

#[test]
fn proof_from_digest_fields() {
    let proof = proof_from_digest(with_profile("SG"), &[0x00, 0xff, 0x10], "alias", 77);
    assert_eq!(proof.proof_hash, "00ff10");
    assert_eq!(proof.alias, "alias");
    assert_eq!(proof.verified_at, 77);
    assert_eq!(proof.status, ProofStatus::Verified);
    assert!(proof.payload.profile.is_some());
}

#[test]
fn webhook_without_shares_is_forbidden() {
    assert_eq!(webhook_reply(0), (403, false));
    assert_eq!(webhook_reply(3), (200, true));
}

#[test]
fn signer_from_recovery_outcome() {
    assert!(matches!(signer_from_recovery(None), ShareSigner::Unrecovered));
    match signer_from_recovery(Some([0x11; 20])) {
        ShareSigner::Recovered(a) => assert_eq!(a, format!("0x{}", "11".repeat(20))),
        _ => panic!("expected an address"),
    }
}

#[test]
fn share_actions() {
    let recovered = ShareSigner::Recovered("0xab".to_string());
    match share_action(&recovered, Some(true)) {
        ShareAction::StoreProof { wallet, alias } => {
            assert_eq!(wallet, "0xab");
            assert_eq!(alias, "binance_combined");
        }
        ShareAction::Skip => panic!("expected a stored proof"),
    }
    assert!(matches!(share_action(&recovered, Some(false)), ShareAction::Skip));
    assert!(matches!(share_action(&recovered, None), ShareAction::Skip));
    assert!(matches!(share_action(&ShareSigner::Unsigned, Some(true)), ShareAction::Skip));
    assert!(matches!(share_action(&ShareSigner::Unrecovered, Some(true)), ShareAction::Skip));
    assert!(matches!(share_action(&ShareSigner::InvalidSignatureHex, None), ShareAction::Skip));
}
