use fluxa::engine::BankingEngine;
use fluxa::records::KeyPair;
use fluxa::signing::{canonical_text, sha256_hex, stamp_text};
use fluxa::text::{push_decimal, same_text};

fn text(value: &str) -> String {
    value.to_string()
}

fn engine_with_keys() -> BankingEngine {
    let mut engine = BankingEngine::open(text("wallet-1"), text("t0"));
    engine.initialize_keys_from("seed-1", text("t1"));
    engine
}

#[test]
fn sha256_hex_matches_known_digests() {
    assert_eq!(
        sha256_hex("abc"),
        "ba7816bf8f01cfea414140de5dae2223b00361a396177a9cb410ff61f20015ad"
    );
    assert_eq!(
        sha256_hex(""),
        "e3b0c44298fc1c149afbf4c8996fb92427ae41e4649b934ca495991b7852b855"
    );
}

#[test]
fn stamp_is_the_digest_of_data_bar_key() {
    assert_eq!(
        stamp_text("hello", "key"),
        "8cfb1042fddce74faf1aa7f9aa0907933137cdea9798887df1ceee8ba57e0584"
    );
    assert_eq!(stamp_text("hello", "key"), sha256_hex("hello|key"));
    assert_eq!(
        stamp_text("caf\u{e9}", "k"),
        "b948f767409061a817dd4f2a7b504c8453d062f6d7f9a6b8fe7b68c501876e42"
    );
}

#[test]
fn canonical_text_joins_fields_with_bars() {
    assert_eq!(
        canonical_text("tx-1", "wallet-1", "receiver-9", 3000, "2024-01-01T00:00:00+00:00"),
        "tx-1|wallet-1|receiver-9|3000|2024-01-01T00:00:00+00:00"
    );
    assert_eq!(canonical_text("", "", "", 0, ""), "|||0|");
    assert_eq!(
        canonical_text("a", "b", "c", u64::MAX, "d"),
        "a|b|c|18446744073709551615|d"
    );
}

#[test]
fn decimal_rendering_is_exact() {
    for n in [0u64, 7, 9, 10, 11, 99, 100, 101, 1000, 40000, 1_000_000, u64::MAX] {
        let mut out = text("n=");
        push_decimal(&mut out, n);
        assert_eq!(out, format!("n={}", n));
    }
}

#[test]
fn same_text_compares_whole_strings() {
    assert!(same_text(&text("pending"), "pending"));
    assert!(!same_text(&text("pending"), "pendin"));
    assert!(!same_text(&text("confirmed"), "cancelled"));
    assert!(same_text(&String::new(), ""));
}

#[test]
fn key_pair_derives_from_seed() {
    let keys = KeyPair::from_seed("seed-1", text("t1"));
    assert_eq!(
        keys.private_key,
        "0eb026731d9ea3f870511f8c18daeb814eaa2c9e276082b204f2a962212fb5bd"
    );
    assert_eq!(
        keys.public_key,
        "5ea745dc9ab862dae823204248d640d806c98d4d58d2d3cd3026374ddb8e57cb"
    );
    assert_eq!(keys.created_at, "t1");
    assert_eq!(keys.clone(), keys);
}

#[test]
fn signing_twice_gives_the_same_stamp() {
    let engine = engine_with_keys();
    let keys = KeyPair::from_seed("seed-1", text("t1"));
    let first = engine.sign_data("tx-1|wallet-1|receiver-9|3000|t", &keys).unwrap();
    let second = engine.sign_data("tx-1|wallet-1|receiver-9|3000|t", &keys).unwrap();
    assert_eq!(first, second);
    assert_eq!(first.len(), 64);
    assert_eq!(
        first,
        sha256_hex(&format!("tx-1|wallet-1|receiver-9|3000|t|{}", keys.private_key))
    );
}

#[test]
fn changing_a_field_changes_the_stamp() {
    let engine = engine_with_keys();
    let keys = KeyPair::from_seed("seed-1", text("t1"));
    let base = engine.sign_data("tx-1|wallet-1|receiver-9|3000|t", &keys).unwrap();
    for changed in [
        "tx-2|wallet-1|receiver-9|3000|t",
        "tx-1|wallet-2|receiver-9|3000|t",
        "tx-1|wallet-1|receiver-8|3000|t",
        "tx-1|wallet-1|receiver-9|3001|t",
        "tx-1|wallet-1|receiver-9|3000|u",
    ] {
        assert_ne!(engine.sign_data(changed, &keys).unwrap(), base);
    }
    let other = KeyPair::from_seed("seed-2", text("t1"));
    assert_ne!(
        engine.sign_data("tx-1|wallet-1|receiver-9|3000|t", &other).unwrap(),
        base
    );
}

#[test]
fn verify_accepts_own_stamp_only() {
    let engine = engine_with_keys();
    let keys = KeyPair::from_seed("seed-1", text("t1"));
    let stamp = engine.sign_data("payload", &keys).unwrap();
    assert_eq!(engine.verify_signature("payload", &stamp), Ok(true));
    assert_eq!(engine.verify_signature("payload2", &stamp), Ok(false));
    assert_eq!(engine.verify_signature("payload", "payload"), Ok(false));
    assert_eq!(engine.verify_signature("payload", ""), Ok(false));
    assert_eq!(
        engine.verify_signature("payload", &stamp.to_uppercase()),
        Ok(false)
    );
}

#[test]
fn verify_needs_keys() {
    let engine = BankingEngine::open(text("wallet-1"), text("t0"));
    assert_eq!(
        engine.verify_signature("payload", "anything"),
        Err(text("Keys not initialized"))
    );
}

#[test]
fn verify_uses_the_private_key_not_the_public_key() {
    let engine = engine_with_keys();
    let keys = KeyPair::from_seed("seed-1", text("t1"));
    let with_public = stamp_text("payload", &keys.public_key);
    assert_eq!(engine.verify_signature("payload", &with_public), Ok(false));
    let with_private = stamp_text("payload", &keys.private_key);
    assert_eq!(engine.verify_signature("payload", &with_private), Ok(true));
}
