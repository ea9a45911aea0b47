//! Salted one-way password hashes.
//!
//! Hashing is slow on purpose. A service that answers many requests at once
//! runs these functions on a worker thread, never on the thread that serves
//! requests.

use crate::domain::user_password::{byte_len, SecretString, UserPassword};
use vstd::prelude::*;
use vstd::string::StringSliceAdditionalSpecFns;

verus! {

/// What holding a password against a stored hash gives.
#[derive(Clone, Copy, Debug, PartialEq, Eq, Structural)]
pub enum Verification {
    /// The hash was made from this password.
    Verified,
    /// The stored text reads as a hash, and not as one of this password.
    Mismatch,
    /// The stored text does not read as a hash.
    Malformed,
}

/// Why no hash was made.
#[derive(Clone, Copy, Debug, PartialEq, Eq, Structural)]
pub enum HashError {
    /// The hasher could not do its work.
    Internal,
}

impl HashError {
    pub open spec fn message_text(self) -> Seq<char> {
        "password hashing error"@
    }

    /// The text for the log.
    pub fn message(&self) -> (text: &'static str)
        ensures
            text@ == self.message_text(),
    {
        "password hashing error"
    }
}

/// The longest password, in bytes, that the hasher takes.
pub const MAX_PASSWORD_BYTES: usize = 0xFFFF_FFFF;

/// What holding the password against the hash gives. It depends on the two
/// texts alone: the salt and the parameters are part of the hash.
pub uninterp spec fn verification_of(password: Seq<char>, hash: Seq<char>) -> Verification;

/// Whether the hash was made from the password: what `verify` answers.
pub open spec fn verifies(password: Seq<char>, hash: Seq<char>) -> bool {
    verification_of(password, hash) == Verification::Verified
}

/// `password_auth::generate_hash`: a hash of the password under a fresh random
/// salt, as a string in PHC format that embeds the salt. Two calls give
/// different hashes; each of them verifies against the password it was made
/// from. The hasher stops the program on a password of more than
/// `MAX_PASSWORD_BYTES` bytes.
#[verifier::external_body]
fn generate_hash(password: &str) -> (hash: String)
    requires
        password.spec_bytes().len() <= MAX_PASSWORD_BYTES,
    ensures
        verification_of(password@, hash@) == Verification::Verified,
{
    password_auth::generate_hash(password)
}

/// `password_auth::verify_password`: parses the hash, computes the hash of the
/// password under the salt and the parameters found in it, and compares. Its
/// three outcomes are told apart: success, the error for a password that did
/// not verify, and the error for a text that did not parse. The outcome
/// depends on the two texts alone.
#[verifier::external_body]
fn verify_password(password: &str, hash: &str) -> (outcome: Verification)
    ensures
        outcome == verification_of(password@, hash@),
{
    match password_auth::verify_password(password, hash) {
        Ok(()) => Verification::Verified,
        Err(password_auth::VerifyError::PasswordInvalid) => Verification::Mismatch,
        Err(password_auth::VerifyError::Parse(_)) => Verification::Malformed,
    }
}

/// Hashes a secret text. Fails, without calling the hasher, on a text longer
/// than the hasher takes; every hash that comes back verifies against the
/// text.
pub fn hash_secret(password: &SecretString) -> (r: Result<String, HashError>)
    ensures
        byte_len(password@) <= MAX_PASSWORD_BYTES ==> (r matches Ok(hash) && verifies(
            password@,
            hash@,
        )),
        byte_len(password@) > MAX_PASSWORD_BYTES ==> r == Err::<String, HashError>(
            HashError::Internal,
        ),
{
    let text = password.expose();
    if text.as_bytes().len() > MAX_PASSWORD_BYTES {
        Err(HashError::Internal)
    } else {
        Ok(generate_hash(text))
    }
}

/// Holds a secret text against a stored hash.
pub fn verify_secret(hash: &str, password: &SecretString) -> (outcome: Verification)
    ensures
        outcome == verification_of(password@, hash@),
{
    verify_password(password.expose(), hash)
}

/// Hashes a password for storage. Whatever hash comes back, `verify` answers
/// true for it and the password it was made from.
pub fn hash(password: &UserPassword) -> (r: Result<String, HashError>)
    ensures
        byte_len(password@) <= MAX_PASSWORD_BYTES ==> (r matches Ok(hash) && verifies(
            password@,
            hash@,
        )),
        byte_len(password@) > MAX_PASSWORD_BYTES ==> r == Err::<String, HashError>(
            HashError::Internal,
        ),
{
    hash_secret(password.as_ref())
}

/// Whether the stored hash was made from the password. A stored text that is
/// no hash verifies against no password.
pub fn verify(hash: &str, password: &UserPassword) -> (matches: bool)
    ensures
        matches == verifies(password@, hash@),
{
    is_verified(verify_secret(hash, password.as_ref()))
}

/// Whether an outcome is the one that lets a user in.
pub fn is_verified(outcome: Verification) -> (matches: bool)
    ensures
        matches == (outcome == Verification::Verified),
{
    match outcome {
        Verification::Verified => true,
        Verification::Mismatch => false,
        Verification::Malformed => false,
    }
}

} // verus!
