use netgame::crypto::{check_signature, public_key_decodes, ClientIdentity};
use netgame::market::{trade_price_text, TradeMessageError};
use netgame::reports::{
    check_submission, parse_round_count, price_bytes, signed_message, Aggregator, Ledger,
    PriceReport, Submission, SubmissionError,
};

fn hex(s: &str) -> Vec<u8> {
    (0..s.len()).step_by(2).map(|i| u8::from_str_radix(&s[i..i + 2], 16).unwrap()).collect()
}

fn arr32(v: &[u8]) -> [u8; 32] {
    v.try_into().unwrap()
}

fn arr64(v: &[u8]) -> [u8; 64] {
    v.try_into().unwrap()
}

const SECRET: &str = "9d61b19deffd5a60ba844af492ec2cc44449c5697b326919703bac031cae7f60";
const PUBLIC: &str = "d75a980182b10ab7d54bfed3c964073a0ee172f3daa62325af021a68f707511a";
const EMPTY_SIG: &str = "e5564300c360ac729086e2cc806e828a84877f1eb8e5d974d873e065224901555fb8821590a33bacc61e39701cf9b46bd25bf5f0595bbe24655141438e7a100b";

fn known_identity() -> ClientIdentity {
    ClientIdentity::from_secret(arr32(&hex(SECRET)))
}

/// A 32-byte string that is not the encoding of a curve point.
fn undecodable_key() -> [u8; 32] {
    let sig = [0u8; 64];
    for b in 0..=255u8 {
        let mut k = [0u8; 32];
        k[0] = b;
        k[1] = 7;
        if check_signature(&k, b"", &sig).is_none() {
            return k;
        }
    }
    panic!("no undecodable key among the candidates");
}

#[test]
fn rfc8032_test_vector() {
    let id = known_identity();
    assert_eq!(id.public_key().to_vec(), hex(PUBLIC));
    assert_eq!(id.sign(b"").to_vec(), hex(EMPTY_SIG));
    assert_eq!(check_signature(&arr32(&hex(PUBLIC)), b"", &arr64(&hex(EMPTY_SIG))), Some(true));
}

#[test]
fn tampered_messages_and_signatures_fail() {
    let pk = arr32(&hex(PUBLIC));
    let mut sig = arr64(&hex(EMPTY_SIG));
    assert_eq!(check_signature(&pk, b"x", &sig), Some(false));
    sig[0] ^= 1;
    assert_eq!(check_signature(&pk, b"", &sig), Some(false));
}

#[test]
fn some_keys_do_not_decode() {
    let k = undecodable_key();
    assert_eq!(check_signature(&k, b"", &[0u8; 64]), None);
}

#[test]
fn fresh_identities_sign_verifiably() {
    let a = ClientIdentity::generate().ok().expect("random source");
    let b = ClientIdentity::generate().ok().expect("random source");
    assert_ne!(a.public_key(), b.public_key());
    let sig = a.sign(b"hello");
    assert_eq!(check_signature(&a.public_key(), b"hello", &sig), Some(true));
    assert_eq!(check_signature(&b.public_key(), b"hello", &sig), Some(false));
}

#[test]
fn price_bytes_are_big_endian() {
    let price: f32 = 64123.5;
    assert_eq!(price_bytes(price.to_bits()), price.to_be_bytes());
    assert_eq!(price_bytes(0x0102_0304), [1, 2, 3, 4]);
}

#[test]
fn aggregator_accepts_only_signatures_of_the_named_client() {
    let ids: Vec<ClientIdentity> = (0..3u8).map(|i| ClientIdentity::from_secret([i + 1; 32])).collect();
    let keys: Vec<[u8; 32]> = ids.iter().map(|i| i.public_key()).collect();
    let mut agg = Aggregator::new(keys);
    let price: f32 = 100.25;
    let good = PriceReport::signed(1, price.to_bits(), &ids[1]);
    assert!(agg.receive(&good));
    // signed by client 2 but claiming to be client 0
    let forged = PriceReport::signed(0, price.to_bits(), &ids[2]);
    assert!(!agg.receive(&forged));
    // signature of another price
    let mut changed = PriceReport::signed(2, price.to_bits(), &ids[2]);
    changed.price_bits = 1.0f32.to_bits();
    assert!(!agg.receive(&changed));
    assert_eq!(agg.accepted(), &vec![(1usize, price.to_bits())]);
}

#[test]
fn signed_message_joins_id_price_and_name() {
    assert_eq!(signed_message(12, "64000.12500", "alice\n"), b"1264000.12500alice\n".to_vec());
    assert_eq!(signed_message(0, "", ""), b"0".to_vec());
}

#[test]
fn a_client_submission_is_accepted_by_the_server() {
    let id = known_identity();
    let sub = Submission::create(&id, 7, 3.5f32.to_bits(), "3.50000", "bob\n");
    assert_eq!(sub.public_key, hex(PUBLIC));
    assert_eq!(sub.signature.len(), 64);
    assert!(matches!(check_submission(&sub, "3.50000"), Ok(true)));
    assert!(matches!(check_submission(&sub, "3.50001"), Ok(false)));
}

#[test]
fn ledger_keeps_only_valid_submissions() {
    let id = known_identity();
    let mut ledger = Ledger::new();
    let sub = Submission::create(&id, 1, 2.0f32.to_bits(), "2.00000", "carol");
    assert!(matches!(ledger.record(sub, "2.00000"), Ok(true)));
    let mut bad = Submission::create(&id, 2, 4.0f32.to_bits(), "4.00000", "dave");
    bad.name = "mallory".to_string();
    assert!(matches!(ledger.record(bad, "4.00000"), Ok(false)));
    let mut unknown = Submission::create(&id, 3, 5.0f32.to_bits(), "5.00000", "erin");
    unknown.public_key = undecodable_key().to_vec();
    assert!(matches!(ledger.record(unknown, "5.00000"), Err(SubmissionError::InvalidPublicKey)));
    assert_eq!(ledger.entries().len(), 1);
    assert_eq!(ledger.entries()[0].name, "carol");
    assert_eq!(ledger.prices(), &vec![2.0f32.to_bits()]);
}

#[test]
fn round_counts_are_at_least_five() {
    assert_eq!(parse_round_count("5\n"), Some(5));
    assert_eq!(parse_round_count(" 12 "), Some(12));
    assert_eq!(parse_round_count("4\n"), None);
    assert_eq!(parse_round_count("lots\n"), None);
    assert_eq!(parse_round_count("4294967296\n"), None);
}

#[test]
fn trade_messages_give_their_price_text() {
    let msg = r#"{"e":"trade","s":"BTCUSDT","p":"64123.45000000","q":"0.001"}"#;
    assert!(matches!(trade_price_text(msg), Ok(Some(p)) if p == "64123.45000000"));
    assert!(matches!(trade_price_text(r#"{"p":64123.4}"#), Ok(None)));
    assert!(matches!(trade_price_text(r#"{"q":"1"}"#), Ok(None)));
    assert!(matches!(trade_price_text(r#"["p"]"#), Ok(None)));
    assert!(matches!(trade_price_text("not json"), Err(TradeMessageError::NotJson)));
    assert!(matches!(trade_price_text(""), Err(TradeMessageError::NotJson)));
}

#[test]
fn malformed_submissions_are_reported_in_order() {
    let id = known_identity();
    let mut short_key = Submission::create(&id, 1, 0, "0.00000", "x");
    short_key.public_key.pop();
    short_key.signature.pop();
    assert!(matches!(check_submission(&short_key, "0.00000"), Err(SubmissionError::PublicKeyLength)));
    let mut short_sig = Submission::create(&id, 1, 0, "0.00000", "x");
    short_sig.signature.pop();
    assert!(matches!(check_submission(&short_sig, "0.00000"), Err(SubmissionError::SignatureLength)));
    let mut bad_key_and_sig = Submission::create(&id, 1, 0, "0.00000", "x");
    bad_key_and_sig.public_key = undecodable_key().to_vec();
    bad_key_and_sig.signature.push(0);
    assert!(matches!(check_submission(&bad_key_and_sig, "0.00000"), Err(SubmissionError::InvalidPublicKey)));
    let mut ledger = Ledger::new();
    assert!(matches!(ledger.record(short_sig, "0.00000"), Err(SubmissionError::SignatureLength)));
    assert_eq!(ledger.entries().len(), 0);
}

#[test]
fn public_keys_of_identities_decode() {
    for i in 0..8u8 {
        let id = ClientIdentity::from_secret([i; 32]);
        assert!(public_key_decodes(&id.public_key()));
    }
    assert!(!public_key_decodes(&undecodable_key()));
}
