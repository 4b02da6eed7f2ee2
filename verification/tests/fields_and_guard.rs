use tale_ledger::address::{text_seed, Address};
use tale_ledger::fields::{
    text_len, too_long, validate, validate_non_empty, validate_ordinal, FieldError,
};
use tale_ledger::guard::{authorize, check_access, AccessError, Unauthorized};

fn addr(tag: u8) -> Address {
    Address::new([tag; 32])
}

#[test]
fn validate_counts_bytes_not_characters() {
    assert_eq!(validate("", 0), Ok(()));
    assert_eq!(validate("abc", 3), Ok(()));
    assert_eq!(validate("abcd", 3), Err(FieldError::FieldTooLong));
    assert_eq!(validate("\u{e9}", 1), Err(FieldError::FieldTooLong));
    assert_eq!(validate("\u{e9}", 2), Ok(()));
    assert_eq!(text_len("\u{20ac}uro"), 6);
    assert!(too_long("\u{20ac}uro", 5));
    assert!(!too_long("\u{20ac}uro", 6));
}

#[test]
fn validate_non_empty_reports_empty_first() {
    assert_eq!(validate_non_empty("", 0), Err(FieldError::FieldEmpty));
    assert_eq!(validate_non_empty("", 64), Err(FieldError::FieldEmpty));
    assert_eq!(validate_non_empty("a", 0), Err(FieldError::FieldTooLong));
    assert_eq!(validate_non_empty("a", 1), Ok(()));
    assert_eq!(validate_non_empty(&"a".repeat(64), 64), Ok(()));
    assert_eq!(validate_non_empty(&"a".repeat(65), 64), Err(FieldError::FieldTooLong));
}

#[test]
fn validate_ordinal_takes_zero_to_the_highest() {
    assert_eq!(validate_ordinal(0, 2), Ok(()));
    assert_eq!(validate_ordinal(2, 2), Ok(()));
    assert_eq!(validate_ordinal(3, 2), Err(FieldError::InvalidEnumValue));
    assert_eq!(validate_ordinal(255, 2), Err(FieldError::InvalidEnumValue));
    assert_eq!(validate_ordinal(255, 255), Ok(()));
}

#[test]
fn authorize_admits_the_authority_only() {
    assert_eq!(authorize(&addr(1), &addr(1)), Ok(()));
    assert_eq!(authorize(&addr(1), &addr(2)), Err(Unauthorized));
    let mut bytes = [1u8; 32];
    bytes[17] = 0;
    assert_eq!(authorize(&addr(1), &Address::new(bytes)), Err(Unauthorized));
}

#[test]
fn check_access_derives_the_address_again_then_asks_for_the_authority() {
    let program = addr(200);
    let seeds = vec![text_seed("tale-1")];
    let (address, nonce) = tale_ledger::address::derive(&program, "tale", seeds.clone()).unwrap();
    let author = addr(1);
    assert_eq!(
        check_access(&address, &program, "tale", seeds.clone(), nonce, &author, &author),
        Ok(())
    );
    assert_eq!(
        check_access(&address, &program, "tale", seeds.clone(), nonce, &author, &addr(2)),
        Err(AccessError::Unauthorized)
    );
    assert_eq!(
        check_access(&addr(9), &program, "tale", seeds.clone(), nonce, &author, &author),
        Err(AccessError::AddressMismatch)
    );
    assert_eq!(
        check_access(&addr(9), &program, "tale", seeds.clone(), nonce, &author, &addr(2)),
        Err(AccessError::AddressMismatch)
    );
    assert_eq!(
        check_access(&address, &program, "tale", vec![text_seed("tale-2")], nonce, &author, &author),
        Err(AccessError::AddressMismatch)
    );
    assert_eq!(
        check_access(&address, &addr(201), "tale", seeds, nonce, &author, &author),
        Err(AccessError::AddressMismatch)
    );
}
