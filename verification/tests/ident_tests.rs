//! Identifier generation and validation.

use kcidb_restd::ident::{random_string, validate_identifier};

#[test]
fn generated_identifiers_have_the_requested_length() {
    assert_eq!(random_string(0).len(), 0);
    assert_eq!(random_string(1).len(), 1);
    assert_eq!(random_string(32).len(), 32);
    assert_eq!(random_string(100).len(), 100);
}

#[test]
fn generated_identifiers_are_path_safe() {
    // Ten thousand identifiers: every character alphanumeric, so never a
    // separator and never a dot.
    for _ in 0..10_000 {
        let id = random_string(32);
        assert!(id.chars().all(|c| c.is_ascii_alphanumeric()));
        assert!(!id.contains('/'));
        assert!(!id.contains(".."));
    }
}

#[test]
fn generated_identifiers_validate() {
    for _ in 0..100 {
        let id = random_string(32);
        assert!(validate_identifier(&id));
    }
}

#[test]
fn empty_identifier_is_rejected() {
    assert!(!validate_identifier(""));
}

#[test]
fn traversal_identifiers_are_rejected() {
    assert!(!validate_identifier(".."));
    assert!(!validate_identifier("a/b"));
    assert!(!validate_identifier("../../etc/passwd"));
    assert!(!validate_identifier("abc."));
    assert!(!validate_identifier("a b"));
    assert!(!validate_identifier("abc\u{00e9}"));
}

#[test]
fn alphanumeric_identifiers_are_accepted() {
    assert!(validate_identifier("0"));
    assert!(validate_identifier("abc123XYZ"));
    assert!(validate_identifier(
        "ABCDEFGHIJKLMNOPQRSTUVWXYZabcdefghijklmnopqrstuvwxyz0123456789"
    ));
}
