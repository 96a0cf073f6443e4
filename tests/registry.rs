use soljack::registry::{claim_username, record_claim, validate_username, ErrorCode, CLAIM_FEE};

#[test]
fn claim_stores_lower_case_name() {
    let c = claim_username("Alice99", [7u8; 32], 1_000, 250, 251).ok().unwrap();
    assert_eq!(c.username_account.username, "alice99");
    assert_eq!(c.wallet_account.username, "alice99");
    assert_eq!(c.username_account.owner, [7u8; 32]);
    assert_eq!(c.wallet_account.owner, [7u8; 32]);
    assert_eq!(c.username_account.created_at, 1_000);
    assert_eq!(c.username_account.bump, 250);
    assert_eq!(c.wallet_account.bump, 251);
    assert_eq!(c.fee, 10_000_000);
    assert_eq!(c.fee, CLAIM_FEE);
}

#[test]
fn username_length_bounds() {
    assert!(!validate_username(""));
    assert!(!validate_username("ab"));
    assert!(validate_username("abc"));
    assert!(validate_username("abcdefghij0123456789"));
    assert!(!validate_username("abcdefghij0123456789x"));
    assert_eq!(claim_username("ab", [1u8; 32], 0, 0, 0).err(), Some(ErrorCode::InvalidUsername));
}

#[test]
fn username_must_be_alphanumeric() {
    assert!(!validate_username("bad_name"));
    assert!(!validate_username("two words"));
    assert!(!validate_username("dash-ed"));
    assert!(validate_username("MiXeD42"));
    assert_eq!(claim_username("bad_name", [1u8; 32], 0, 0, 0).err(), Some(ErrorCode::InvalidUsername));
}

#[test]
fn username_length_counts_bytes() {
    assert!(validate_username("\u{c4}bc"));
    assert!(!validate_username("\u{c4}\u{c4}\u{c4}\u{c4}\u{c4}\u{c4}\u{c4}\u{c4}\u{c4}\u{c4}x"));
    let c = claim_username("\u{c4}BC", [1u8; 32], 0, 0, 0).ok().unwrap();
    assert_eq!(c.username_account.username, "\u{e4}bc");
}

#[test]
fn record_claim_copies_name_to_both_records() {
    let c = record_claim(String::from("bob"), [3u8; 32], 5, 1, 2);
    assert_eq!(c.username_account.username, "bob");
    assert_eq!(c.wallet_account.username, "bob");
    assert_eq!(c.fee, CLAIM_FEE);
}
