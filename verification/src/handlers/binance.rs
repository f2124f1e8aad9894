//! The exchange webhook: merging proof fragments, checking share signatures,
//! and turning the aggregate into a verified proof.
use vstd::prelude::*;

use crate::clock::now_timestamp;
use crate::digest::{sha256_digest, spec_sha256};
use crate::encoding::{
    eq_ignore_ascii_case, eq_ignore_ascii_case_spec, hex_decode, hex_decode_spec, hex_lower,
    push_char, push_hex_lower, strip_hex_prefixes, trim_hex_prefixes,
};
use crate::ethereum::{
    eip191_hash_message, recover_address_from_msg, spec_eip191_hash_message,
    spec_recover_address_from_msg,
};
use crate::score::append_list;
use crate::types::{empty_payload, BinanceProofPayload, PayloadModel, ProofStatus, VerifiedProof};

verus! {

/// The webhook's merge: a profile or balance in `update` replaces the one in
/// `base`; trade and income lists of `update` are appended to those of `base`.
pub open spec fn override_merge(base: PayloadModel, update: PayloadModel) -> PayloadModel {
    PayloadModel {
        profile: if update.profile is Some {
            update.profile
        } else {
            base.profile
        },
        wallet_balance: if update.wallet_balance is Some {
            update.wallet_balance
        } else {
            base.wallet_balance
        },
        spot_trades: append_list(base.spot_trades, update.spot_trades),
        futures_income_history: append_list(
            base.futures_income_history,
            update.futures_income_history,
        ),
    }
}

/// Merges a payload fragment into the aggregate.
pub fn merge_binance_payloads(base: BinanceProofPayload, update: BinanceProofPayload) -> (r:
    BinanceProofPayload)
    ensures
        r@ == override_merge(base@, update@),
{
    let ghost b0 = base@;
    let ghost u0 = update@;
    let mut base = base;
    let update = update;
    if update.profile.is_some() {
        base.profile = update.profile;
    }
    if update.wallet_balance.is_some() {
        base.wallet_balance = update.wallet_balance;
    }
    if let Some(mut trades) = update.spot_trades {
        let mut list = match base.spot_trades.take() {
            Some(l) => l,
            None => Vec::new(),
        };
        list.append(&mut trades);
        base.spot_trades = Some(list);
    }
    if let Some(mut futures_income) = update.futures_income_history {
        let mut list = match base.futures_income_history.take() {
            Some(l) => l,
            None => Vec::new(),
        };
        list.append(&mut futures_income);
        base.futures_income_history = Some(list);
    }
    assert(base@ =~= override_merge(b0, u0));
    base
}

/// What the webhook's merge keeps: a profile or balance carried by the
/// update replaces the aggregate's; without one the aggregate's stays; a list
/// carried by the update is appended after the aggregate's list (an absent
/// aggregate list counting as empty); without one the aggregate's list stays.
pub proof fn lemma_merge_keeps_newest(b: PayloadModel, u: PayloadModel)
    ensures
        u.profile is Some ==> override_merge(b, u).profile == u.profile,
        u.profile is None ==> override_merge(b, u).profile == b.profile,
        u.wallet_balance is Some ==> override_merge(b, u).wallet_balance == u.wallet_balance,
        u.wallet_balance is None ==> override_merge(b, u).wallet_balance == b.wallet_balance,
        u.spot_trades matches Some(t) ==> override_merge(b, u).spot_trades == Some(
            match b.spot_trades {
                Some(x) => x,
                None => Seq::<crate::types::SpotTrade>::empty(),
            } + t,
        ),
        u.spot_trades is None ==> override_merge(b, u).spot_trades == b.spot_trades,
        u.futures_income_history matches Some(t) ==> override_merge(b, u).futures_income_history
            == Some(
            match b.futures_income_history {
                Some(x) => x,
                None => Seq::<crate::types::FuturesIncome>::empty(),
            } + t,
        ),
        u.futures_income_history is None ==> override_merge(b, u).futures_income_history
            == b.futures_income_history,
{
    match (b.spot_trades, u.spot_trades) {
        (None, Some(t)) => {
            assert(Seq::<crate::types::SpotTrade>::empty() + t =~= t);
        },
        _ => {},
    }
    match (b.futures_income_history, u.futures_income_history) {
        (None, Some(t)) => {
            assert(Seq::<crate::types::FuturesIncome>::empty() + t =~= t);
        },
        _ => {},
    }
}

/// Merging into the empty payload gives the fragment itself.
pub proof fn lemma_merge_empty_base(p: PayloadModel)
    ensures
        override_merge(empty_payload(), p) == p,
{
    assert(override_merge(empty_payload(), p) =~= p);
}

/// Merging the empty payload changes nothing.
pub proof fn lemma_merge_empty_update(p: PayloadModel)
    ensures
        override_merge(p, empty_payload()) == p,
{
    assert(override_merge(p, empty_payload()) =~= p);
}

proof fn lemma_append_list_associative<T>(a: Option<Seq<T>>, b: Option<Seq<T>>, c: Option<Seq<T>>)
    ensures
        append_list(append_list(a, b), c) == append_list(a, append_list(b, c)),
{
    match (a, b, c) {
        (Some(x), Some(y), Some(z)) => {
            assert((x + y) + z =~= x + (y + z));
        },
        _ => {},
    }
}

/// Merging is associative: folding fragments one by one into the aggregate
/// gives what merging the pre-merged fragments gives.
pub proof fn lemma_merge_associative(a: PayloadModel, b: PayloadModel, c: PayloadModel)
    ensures
        override_merge(override_merge(a, b), c) == override_merge(a, override_merge(b, c)),
{
    lemma_append_list_associative(a.spot_trades, b.spot_trades, c.spot_trades);
    lemma_append_list_associative(
        a.futures_income_history,
        b.futures_income_history,
        c.futures_income_history,
    );
    assert(override_merge(override_merge(a, b), c) =~= override_merge(a, override_merge(b, c)));
}

/// The text `0x` followed by the lower-case hex digits of an address, as an
/// address's `Debug` format writes it.
pub open spec fn address_text(address: Seq<u8>) -> Seq<char> {
    seq!['0', 'x'] + hex_lower(address)
}

/// The `0x`-prefixed lower-case hex text of an address.
pub fn address_to_text(address: &[u8; 20]) -> (r: String)
    ensures
        r@ == address_text(address@),
{
    let mut s = String::new();
    push_char(&mut s, '0');
    push_char(&mut s, 'x');
    push_hex_lower(&mut s, address);
    assert(s@ =~= address_text(address@));
    s
}

/// One share of the exchange webhook, its JSON values already read: the
/// payload fragment if it parsed, and the message as JSON text.
pub struct WebhookShare {
    pub payload: Option<BinanceProofPayload>,
    pub signature: Option<String>,
    pub message: Option<String>,
    pub hash: Option<String>,
}

/// Who signed a share, as far as its signature tells.
pub enum ShareSigner {
    /// The share lacks a signature or a message.
    Unsigned,
    /// The signature, with its leading `0x` removed, is not hex text.
    InvalidSignatureHex,
    /// The signature does not parse, or no address can be recovered from it.
    Unrecovered,
    /// The recovered address as `0x`-prefixed lower-case hex text.
    Recovered(String),
}

/// The signature bytes written in a share's signature text: the hex decoding
/// of the text's bytes after every leading `0x`.
pub open spec fn signature_bytes(signature: Seq<char>) -> Option<Seq<u8>> {
    hex_decode_spec(strip_hex_prefixes(vstd::utf8::encode_utf8(signature)))
}

/// The signer of a share with these signature and message texts.
pub open spec fn share_signer_spec(
    r: ShareSigner,
    signature: Option<Seq<char>>,
    message: Option<Seq<char>>,
) -> bool {
    match (signature, message) {
        (Some(sig), Some(msg)) => match signature_bytes(sig) {
            None => r is InvalidSignatureHex,
            Some(sig_bytes) => signer_from_recovery_spec(
                r,
                spec_recover_address_from_msg(
                    sig_bytes,
                    spec_eip191_hash_message(vstd::utf8::encode_utf8(msg)),
                ),
            ),
        },
        _ => r is Unsigned,
    }
}

/// The signer given the result of address recovery.
pub open spec fn signer_from_recovery_spec(r: ShareSigner, recovered: Option<Seq<u8>>) -> bool {
    match recovered {
        None => r is Unrecovered,
        Some(a) => r matches ShareSigner::Recovered(s) && s@ == address_text(a),
    }
}

/// An optional string taken as optional text.
pub open spec fn opt_text(s: Option<String>) -> Option<Seq<char>> {
    match s {
        Some(x) => Some(x@),
        None => None,
    }
}

/// The signer for the outcome of address recovery.
pub fn signer_from_recovery(recovered: Option<[u8; 20]>) -> (r: ShareSigner)
    ensures
        signer_from_recovery_spec(
            r,
            match recovered {
                Some(a) => Some(a@),
                None => None,
            },
        ),
{
    match recovered {
        Some(address) => ShareSigner::Recovered(address_to_text(&address)),
        None => ShareSigner::Unrecovered,
    }
}

/// Decides who signed a share: the signature text, without its leading `0x`,
/// is hex-decoded; the message's EIP-191 hash is taken; and the signer is
/// recovered from the signature over that hash.
pub fn share_signer(signature: &Option<String>, message: &Option<String>) -> (r: ShareSigner)
    ensures
        share_signer_spec(r, opt_text(*signature), opt_text(*message)),
{
    match (signature, message) {
        (Some(sig), Some(msg)) => {
            let text = trim_hex_prefixes(sig.as_str().as_bytes());
            match hex_decode(text) {
                None => ShareSigner::InvalidSignatureHex,
                Some(sig_bytes) => {
                    let msg_hash = eip191_hash_message(msg.as_str().as_bytes());
                    let recovered = recover_address_from_msg(sig_bytes.as_slice(), &msg_hash);
                    signer_from_recovery(recovered)
                },
            }
        },
        _ => ShareSigner::Unsigned,
    }
}

/// Folds one share into the aggregate: its payload fragment, if any, is
/// merged in, and its signer is decided.
pub fn process_share(aggregated: BinanceProofPayload, share: WebhookShare) -> (r: (
    BinanceProofPayload,
    ShareSigner,
))
    ensures
        r.0@ == match share.payload {
            Some(p) => override_merge(aggregated@, p@),
            None => aggregated@,
        },
        share_signer_spec(r.1, opt_text(share.signature), opt_text(share.message)),
{
    let signer = share_signer(&share.signature, &share.message);
    let merged = match share.payload {
        Some(partial) => merge_binance_payloads(aggregated, partial),
        None => aggregated,
    };
    (merged, signer)
}

/// Whether `address` is one of the allowlisted keys, ignoring ASCII case.
pub fn allowlist_contains(keys: &Vec<String>, address: &str) -> (r: bool)
    ensures
        r == exists|i: int|
            0 <= i < keys@.len() && eq_ignore_ascii_case_spec(
                vstd::utf8::encode_utf8(#[trigger] keys@[i]@),
                vstd::utf8::encode_utf8(address@),
            ),
{
    let mut i: usize = 0;
    while i < keys.len()
        invariant
            i <= keys.len(),
            forall|j: int|
                0 <= j < i ==> !eq_ignore_ascii_case_spec(
                    vstd::utf8::encode_utf8(#[trigger] keys@[j]@),
                    vstd::utf8::encode_utf8(address@),
                ),
        decreases keys.len() - i,
    {
        if eq_ignore_ascii_case(keys[i].as_str(), address) {
            return true;
        }
        i += 1;
    }
    false
}

/// What the webhook does with one share once its signer is known.
pub enum ShareAction {
    /// Nothing is stored for the share.
    Skip,
    /// A proof of the aggregate so far is stored under `wallet`, with `alias`.
    StoreProof { wallet: String, alias: String },
}

/// The alias of the proofs made from the webhook's aggregate.
pub open spec fn combined_alias() -> Seq<char> {
    "binance_combined"@
}

/// Decides what to store for a share. `allowlisted` is `None` when the
/// allowlist could not be fetched or read, and otherwise whether it holds the
/// signer. A share whose signer was recovered and is on the allowlist stores
/// a proof of the aggregate under the signer's address, with the alias
/// `binance_combined`. Every other share is skipped.
pub fn share_action(signer: &ShareSigner, allowlisted: Option<bool>) -> (r: ShareAction)
    ensures
        match (*signer, allowlisted) {
            (ShareSigner::Recovered(address), Some(true)) => r matches ShareAction::StoreProof {
                wallet,
                alias,
            } && wallet@ == address@ && alias@ == combined_alias(),
            _ => r is Skip,
        },
{
    match (signer, allowlisted) {
        (ShareSigner::Recovered(address), Some(true)) => ShareAction::StoreProof {
            wallet: address.clone(),
            alias: String::from_str("binance_combined"),
        },
        _ => ShareAction::Skip,
    }
}

/// The proof built from a payload whose serialization hashed to `digest`.
pub fn proof_from_digest(
    payload: BinanceProofPayload,
    digest: &[u8],
    alias: &str,
    verified_at: i64,
) -> (r: VerifiedProof)
    ensures
        r.proof_hash@ == hex_lower(digest@),
        r.alias@ == alias@,
        r.status == ProofStatus::Verified,
        r.verified_at == verified_at,
        r.payload == payload,
{
    let mut proof_hash = String::new();
    push_hex_lower(&mut proof_hash, digest);
    assert(proof_hash@ =~= hex_lower(digest@));
    VerifiedProof {
        proof_hash,
        alias: alias.to_owned(),
        status: ProofStatus::Verified,
        verified_at,
        payload,
    }
}

/// Builds a verified proof from an aggregated payload and its JSON
/// serialization: the proof hash is the lower-case hex SHA-256 digest of the
/// JSON text, and the proof is stamped with the current time.
pub fn generate_proof(payload: BinanceProofPayload, payload_json: &str, alias: &str) -> (r:
    VerifiedProof)
    ensures
        r.proof_hash@ == hex_lower(spec_sha256(vstd::utf8::encode_utf8(payload_json@))),
        r.proof_hash@.len() == 64,
        r.alias@ == alias@,
        r.status == ProofStatus::Verified,
        r.payload == payload,
        -8_334_601_315_200 <= r.verified_at <= 8_210_266_876_799,
{
    let digest = sha256_digest(payload_json.as_bytes());
    let verified_at = now_timestamp();
    let r = proof_from_digest(payload, digest.as_slice(), alias, verified_at);
    proof {
        crate::encoding::lemma_hex_lower_len(digest@);
    }
    r
}

/// The answer to a webhook call: HTTP status and success flag. A call with
/// no share is refused with 403; any other call is answered 200.
pub fn webhook_reply(share_count: usize) -> (r: (u16, bool))
    ensures
        share_count == 0 ==> r == (403u16, false),
        share_count > 0 ==> r == (200u16, true),
{
    if share_count == 0 {
        (403, false)
    } else {
        (200, true)
    }
}

} // verus!
