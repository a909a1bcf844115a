use qr_backend::email::{
    is_specials, is_valid_email_address, is_valid_local, is_valid_sohosai_email_address,
    split_local_and_domain, EmailAddress,
};
use std::str::FromStr;

#[test]
fn test_address_invalid() {
    assert!(EmailAddress::from_str("").is_err());
    assert!(EmailAddress::from_str("a@a@a").is_err());
    assert!(EmailAddress::from_str("a(b)c@a.b").is_err());
    assert!(EmailAddress::from_str("ab@a-.b").is_err());
    assert!(EmailAddress::from_str("@a.b").is_err());
    assert!(EmailAddress::from_str("a@").is_err());
}

#[test]
fn test_address_valid() {
    assert!(EmailAddress::from_str("a@b.c").is_ok());
    assert!(EmailAddress::from_str("a.b.c@de.fg").is_ok());
    assert!(EmailAddress::from_str("ab.c@d-e.fg").is_ok());
}

#[test]
fn test_sohosai_address_invalid() {
    assert!(!is_valid_sohosai_email_address("hello@example.com"));
}

#[test]
fn test_sohosai_address_valid() {
    assert!(is_valid_sohosai_email_address("hello@sohosai.com"));
}

#[test]
fn address_keeps_its_text() {
    let address = EmailAddress::from_string("a.b.c@de.fg".to_string()).unwrap();
    assert_eq!(address.as_str(), "a.b.c@de.fg");
    assert_eq!(address.to_string(), "a.b.c@de.fg");
    assert_eq!(address.clone().into_string(), "a.b.c@de.fg".to_string());
    assert_eq!(
        EmailAddress::from_string("x".to_string()).unwrap_err().to_string(),
        "incalid email address"
    );
}

#[test]
fn address_is_parted_at_the_first_at_sign() {
    assert_eq!(split_local_and_domain("a@b@c"), Some(("a", "b@c")));
    assert_eq!(split_local_and_domain("abc"), None);
    assert_eq!(split_local_and_domain("@b"), None);
    assert_eq!(split_local_and_domain("a@"), None);
    assert_eq!(split_local_and_domain("テスト@b"), Some(("テスト", "b")));
}

#[test]
fn local_part_takes_plain_punctuation_only() {
    assert!(is_valid_local("a.b+c_d-e!#$%&'*/=?^`{|}~"));
    assert!(is_valid_local(""));
    assert!(!is_valid_local("a b"));
    assert!(!is_valid_local("a,b"));
    assert!(!is_valid_local("a\"b"));
    assert!(!is_valid_local("テスト"));
    assert!(is_specials('.'));
    assert!(is_specials('\\'));
    assert!(!is_specials('-'));
}

#[test]
fn domain_labels_are_bounded() {
    let label63 = "a".repeat(63);
    let label64 = "a".repeat(64);
    assert!(is_valid_email_address(&format!("a@{label63}.b")));
    assert!(!is_valid_email_address(&format!("a@{label64}.b")));
    assert!(!is_valid_email_address("a@b..c"));
    assert!(!is_valid_email_address("a@b."));
    assert!(!is_valid_email_address("a@.b"));
    assert!(!is_valid_email_address("a@-b.c"));
    assert!(!is_valid_email_address("a@b_c.d"));
    assert!(is_valid_email_address("a@b"));
    assert!(!is_valid_sohosai_email_address("he(llo@sohosai.com"));
    assert!(!is_valid_sohosai_email_address("hello@SOHOSAI.com"));
}
