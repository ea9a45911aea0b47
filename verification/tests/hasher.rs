use tradesalsa::domain::user_password::SecretString;
use tradesalsa::domain::UserPassword;
use tradesalsa::hasher::{
    hash, hash_secret, is_verified, verify, verify_secret, HashError, Verification,
};

/// Argon2i hash of the password `password`.
const EXAMPLE_HASH: &str =
    "$argon2i$v=19$m=65536,t=1,p=1$c29tZXNhbHQAAAAAAAAAAA$+r0d29hqEB0yasKr55ZgICsQGSkl0v0kgwhd+U3wyRo";

fn secret(text: &str) -> SecretString {
    SecretString::new(text.to_string())
}

fn password(text: &str) -> UserPassword {
    UserPassword::parse(secret(text)).unwrap()
}

#[test]
fn hash_then_verify_returns_true() {
    let chosen = password("Valid1Password!");
    let stored = hash(&chosen).unwrap();
    assert!(verify(&stored, &chosen));
}

#[test]
fn verify_with_another_password_returns_false() {
    let stored = hash(&password("Valid1Password!")).unwrap();
    assert!(!verify(&stored, &password("Other1Password!")));
    assert_eq!(verify_secret(&stored, &secret("valid1password!")), Verification::Mismatch);
}

#[test]
fn hash_is_salted_and_is_not_the_password() {
    let chosen = password("Valid1Password!");
    let first = hash(&chosen).unwrap();
    let second = hash(&chosen).unwrap();
    assert_ne!(first, second);
    assert_ne!(first, "Valid1Password!");
    assert!(!first.contains("Valid1Password!"));
    assert!(first.starts_with("$argon2"));
}

#[test]
fn malformed_hash_verifies_against_nothing() {
    let chosen = password("Valid1Password!");
    assert!(!verify("", &chosen));
    assert!(!verify("not a hash", &chosen));
    assert!(!verify("Valid1Password!", &chosen));
    assert_eq!(verify_secret("not a hash", &secret("x")), Verification::Malformed);
}

#[test]
fn known_hash_is_verified() {
    assert_eq!(verify_secret(EXAMPLE_HASH, &secret("password")), Verification::Verified);
    assert_eq!(verify_secret(EXAMPLE_HASH, &secret("bogus")), Verification::Mismatch);
}

#[test]
fn secret_of_any_strength_can_be_hashed() {
    let weak = secret("a");
    let stored = hash_secret(&weak).unwrap();
    assert_eq!(verify_secret(&stored, &weak), Verification::Verified);
    assert_eq!(verify_secret(&stored, &secret("b")), Verification::Mismatch);
}

#[test]
fn only_a_verified_password_lets_in() {
    assert!(is_verified(Verification::Verified));
    assert!(!is_verified(Verification::Mismatch));
    assert!(!is_verified(Verification::Malformed));
}

#[test]
fn hash_error_has_a_text_for_the_log() {
    assert_eq!(HashError::Internal.message(), "password hashing error");
}
