use tradesalsa::domain::user_password::SecretString;
use tradesalsa::hasher::{hash_secret, Verification};
use tradesalsa::user::memory::Conflict;
use tradesalsa::user::{
    authenticate, check_credentials, credentials_decision, load_user, AuthError, Backend,
    Credentials, MemoryUsers, User, UserRepository,
};

fn secret(text: &str) -> SecretString {
    SecretString::new(text.to_string())
}

fn user(id: u128, email: &str, password: &str) -> User {
    User {
        id,
        email: email.to_string(),
        password_hash: hash_secret(&secret(password)).unwrap(),
        created_at: 10,
        updated_at: 20,
    }
}

fn stored(id: u128, email: &str, password_hash: &str) -> User {
    User {
        id,
        email: email.to_string(),
        password_hash: password_hash.to_string(),
        created_at: 10,
        updated_at: 20,
    }
}

fn credentials(email: &str, password: &str) -> Credentials {
    Credentials { email: email.to_string(), password: secret(password), next: None }
}

#[test]
fn correct_email_and_password_give_the_user() {
    let mut users = MemoryUsers::new();
    users.insert(user(1, "ursula@domain.com", "Valid1Password!")).unwrap();
    let backend = Backend::new(users);
    let found = backend
        .authenticate(&credentials("ursula@domain.com", "Valid1Password!"))
        .unwrap()
        .unwrap();
    assert_eq!(found.id, 1);
    assert_eq!(found.email, "ursula@domain.com");
    assert_eq!(found.created_at, 10);
    assert_eq!(found.updated_at, 20);
}

#[test]
fn correct_email_and_wrong_password_is_no_match_and_no_error() {
    let mut users = MemoryUsers::new();
    users.insert(user(1, "ursula@domain.com", "Valid1Password!")).unwrap();
    let backend = Backend::new(users);
    let answer = backend.authenticate(&credentials("ursula@domain.com", "Wrong1Password!"));
    assert!(matches!(answer, Ok(None)));
}

#[test]
fn nonexistent_email_is_no_match_and_no_error() {
    let mut users = MemoryUsers::new();
    users.insert(user(1, "ursula@domain.com", "Valid1Password!")).unwrap();
    let backend = Backend::new(users);
    let answer = backend.authenticate(&credentials("nobody@domain.com", "Valid1Password!"));
    assert!(matches!(answer, Ok(None)));
}

#[test]
fn email_is_looked_up_without_regard_to_case() {
    let mut users = MemoryUsers::new();
    users.insert(user(1, "Ursula@Domain.com", "Valid1Password!")).unwrap();
    let backend = Backend::new(users);
    let found = backend
        .authenticate(&credentials("uRSULA@dOMAIN.COM", "Valid1Password!"))
        .unwrap()
        .unwrap();
    assert_eq!(found.id, 1);
    assert_eq!(found.email, "Ursula@Domain.com");
}

#[test]
fn corrupted_hash_is_an_internal_error() {
    let mut users = MemoryUsers::new();
    users.insert(stored(1, "ursula@domain.com", "not a hash")).unwrap();
    let backend = Backend::new(users);
    let answer = backend.authenticate(&credentials("ursula@domain.com", "Valid1Password!"));
    assert!(matches!(answer, Err(AuthError::Internal)));
}

#[test]
fn decision_for_each_outcome() {
    let found = credentials_decision(stored(1, "a@b.co", "h"), Verification::Verified);
    assert_eq!(found.unwrap().unwrap().id, 1);
    let found = credentials_decision(stored(1, "a@b.co", "h"), Verification::Mismatch);
    assert!(matches!(found, Ok(None)));
    let found = credentials_decision(stored(1, "a@b.co", "h"), Verification::Malformed);
    assert!(matches!(found, Err(AuthError::Internal)));
}

#[test]
fn check_credentials_of_a_user_that_was_found_elsewhere() {
    let decoy = hash_secret(&secret("decoy")).unwrap();
    let found = Some(user(1, "ursula@domain.com", "Valid1Password!"));
    let answer = check_credentials(found, &secret("Valid1Password!"), &decoy);
    assert_eq!(answer.unwrap().unwrap().id, 1);
    let answer = check_credentials(None, &secret("Valid1Password!"), &decoy);
    assert!(matches!(answer, Ok(None)));
    // The decoy's own password lets nobody in either.
    let answer = check_credentials(None, &secret("decoy"), &decoy);
    assert!(matches!(answer, Ok(None)));
}

#[test]
fn free_function_and_backend_agree() {
    let mut users = MemoryUsers::new();
    users.insert(user(1, "ursula@domain.com", "Valid1Password!")).unwrap();
    let decoy = hash_secret(&secret("decoy")).unwrap();
    let answer =
        authenticate(&users, &credentials("ursula@domain.com", "Valid1Password!"), &decoy);
    assert_eq!(answer.unwrap().unwrap().id, 1);
    assert_eq!(load_user(&users, 1).unwrap().unwrap().email, "ursula@domain.com");
    assert!(load_user(&users, 2).unwrap().is_none());
}

#[test]
fn load_user_by_id() {
    let mut users = MemoryUsers::new();
    users.insert(stored(1, "ursula@domain.com", "h1")).unwrap();
    users.insert(stored(2, "bob@domain.com", "h2")).unwrap();
    let backend = Backend::new(users);
    assert_eq!(backend.load_user(2).unwrap().unwrap().email, "bob@domain.com");
    assert_eq!(backend.load_user(1).unwrap().unwrap().password_hash, "h1");
    assert!(backend.load_user(3).unwrap().is_none());
    assert_eq!(backend.users().len(), 2);
    assert_eq!(backend.into_store().len(), 2);
}

#[test]
fn decoy_is_a_hash_of_its_own() {
    let backend = Backend::new(MemoryUsers::new());
    assert!(backend.decoy_hash().starts_with("$argon2"));
}

#[test]
fn no_two_users_share_an_id_or_an_email() {
    let mut users = MemoryUsers::new();
    assert_eq!(users.insert(stored(1, "ursula@domain.com", "h")), Ok(()));
    assert_eq!(users.insert(stored(1, "other@domain.com", "h")), Err(Conflict::IdTaken));
    assert_eq!(users.insert(stored(2, "ursula@domain.com", "h")), Err(Conflict::EmailTaken));
    assert_eq!(users.insert(stored(2, "URSULA@domain.com", "h")), Err(Conflict::EmailTaken));
    // The id is looked at first.
    assert_eq!(users.insert(stored(1, "ursula@domain.com", "h")), Err(Conflict::IdTaken));
    assert_eq!(users.insert(stored(2, "ursula2@domain.com", "h")), Ok(()));
    assert_eq!(users.len(), 2);
}

#[test]
fn repository_lookups() {
    let mut users = MemoryUsers::new();
    users.insert(stored(1, "ursula@domain.com", "h1")).unwrap();
    users.insert(stored(2, "bob@domain.com", "h2")).unwrap();
    assert_eq!(users.find_by_email("bob@domain.com").unwrap().unwrap().id, 2);
    assert_eq!(users.find_by_email("BOB@DOMAIN.COM").unwrap().unwrap().id, 2);
    assert!(users.find_by_email("bob@domain.co").unwrap().is_none());
    assert!(users.find_by_email("").unwrap().is_none());
    assert_eq!(users.find_by_id(1).unwrap().unwrap().email, "ursula@domain.com");
    assert!(users.find_by_id(0).unwrap().is_none());
}

#[test]
fn duplicate_is_a_copy() {
    let chosen = stored(1, "ursula@domain.com", "h1");
    let copy = chosen.duplicate();
    assert_eq!(copy.id, 1);
    assert_eq!(copy.email, "ursula@domain.com");
    assert_eq!(copy.password_hash, "h1");
    assert_eq!(copy.created_at, 10);
    assert_eq!(copy.updated_at, 20);
}

#[test]
fn auth_error_messages_name_no_cause() {
    assert_eq!(AuthError::InvalidCredentials.message(), "Invalid Credentials");
    assert_eq!(AuthError::Internal.message(), "Internal Server Error");
}
