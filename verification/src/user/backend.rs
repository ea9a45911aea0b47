//! Authentication: a user store, and the check of a password against what
//! the store holds.

use crate::domain::user_password::{byte_len, SecretString};
use crate::hasher::{hash_secret, verification_of, verify_secret, Verification};
use crate::user::model::{
    first_with_email, first_with_id, seen, AuthError, Credentials, User, UserRepository, UserView,
};
use vstd::prelude::*;
use vstd::utf8::encode_scalar;

verus! {

/// What authentication answers, as contracts speak of it.
pub open spec fn answer(r: Result<Option<User>, AuthError>) -> Result<Option<UserView>, AuthError> {
    match r {
        Ok(found) => Ok(seen(found)),
        Err(e) => Err(e),
    }
}

/// What is answered for a user once the password has been held against the
/// stored hash: the user on a match, nobody on a mismatch, and an error where
/// the stored hash is none.
pub open spec fn decision(user: UserView, outcome: Verification) -> Result<
    Option<UserView>,
    AuthError,
> {
    match outcome {
        Verification::Verified => Ok(Some(user)),
        Verification::Mismatch => Ok(None),
        Verification::Malformed => Err(AuthError::Internal),
    }
}

/// What is answered for a password and the user found under an email: nobody
/// where there is no such user, else what the stored hash decides.
pub open spec fn authentication(found: Option<UserView>, password: Seq<char>) -> Result<
    Option<UserView>,
    AuthError,
> {
    match found {
        None => Ok(None),
        Some(user) => decision(user, verification_of(password, user.password_hash)),
    }
}

/// What is answered for a user once the password has been held against the
/// stored hash.
pub fn credentials_decision(user: User, outcome: Verification) -> (r: Result<
    Option<User>,
    AuthError,
>)
    ensures
        answer(r) == decision(user@, outcome),
{
    match outcome {
        Verification::Verified => Ok(Some(user)),
        Verification::Mismatch => Ok(None),
        Verification::Malformed => Err(AuthError::Internal),
    }
}

/// Holds the password against the hash of the user that was found under the
/// email. Where no user was found the password is held against `decoy_hash`
/// and nobody is answered: an unknown email costs the time that a wrong
/// password costs.
pub fn check_credentials(found: Option<User>, password: &SecretString, decoy_hash: &str) -> (r:
    Result<Option<User>, AuthError>)
    ensures
        answer(r) == authentication(seen(found), password@),
{
    match found {
        None => {
            let _ = verify_secret(decoy_hash, password);
            Ok(None)
        },
        Some(user) => {
            let outcome = verify_secret(user.password_hash.as_str(), password);
            credentials_decision(user, outcome)
        },
    }
}

/// Looks the user up by email and checks the password. A wrong password and
/// an unknown email are both answered with nobody, not with an error.
pub fn authenticate<R: UserRepository>(users: &R, creds: &Credentials, decoy_hash: &str) -> (r:
    Result<Option<User>, AuthError>)
    ensures
        r is Ok || users.dependable() ==> answer(r) == authentication(
            first_with_email(users.users(), creds.email@),
            creds.password@,
        ),
        r matches Err(e) ==> e == AuthError::Internal,
{
    match users.find_by_email(creds.email.as_str()) {
        Ok(found) => check_credentials(found, &creds.password, decoy_hash),
        Err(_) => Err(AuthError::Internal),
    }
}

/// Looks the user up by id.
pub fn load_user<R: UserRepository>(users: &R, id: u128) -> (r: Result<Option<User>, AuthError>)
    ensures
        users.dependable() ==> r is Ok,
        r matches Ok(found) ==> seen(found) == first_with_id(users.users(), id),
        r matches Err(e) ==> e == AuthError::Internal,
{
    users.find_by_id(id)
}

/// A wrong password and an unknown email get the same answer: nobody, and no
/// error. The right password gets the user.
pub proof fn no_match_is_no_error(user: UserView, password: Seq<char>)
    ensures
        authentication(None, password) == Ok::<Option<UserView>, AuthError>(None),
        verification_of(password, user.password_hash) == Verification::Mismatch
            ==> authentication(Some(user), password) == Ok::<Option<UserView>, AuthError>(None),
        verification_of(password, user.password_hash) == Verification::Verified
            ==> authentication(Some(user), password) == Ok::<Option<UserView>, AuthError>(
            Some(user),
        ),
{
}

/// A text has at most four bytes for each character.
pub proof fn byte_len_at_most(text: Seq<char>)
    ensures
        byte_len(text) <= 4 * text.len(),
    decreases text.len(),
{
    if text.len() > 0 {
        byte_len_at_most(text.drop_first());
        assert(encode_scalar(text[0] as u32).len() <= 4);
    }
}

/// Authentication over a user store.
pub struct Backend<R: UserRepository> {
    users: R,
    decoy_hash: String,
}

impl<R: UserRepository> Backend<R> {
    /// The user store.
    pub closed spec fn store(&self) -> R {
        self.users
    }

    /// The hash against which the passwords for unknown emails are held.
    pub closed spec fn decoy(&self) -> Seq<char> {
        self.decoy_hash@
    }

    /// A backend over the store. It hashes a password of its own, against
    /// which the passwords for unknown emails are held.
    pub fn new(users: R) -> (backend: Backend<R>)
        ensures
            backend.store() == users,
            verification_of("decoy"@, backend.decoy()) == Verification::Verified,
    {
        let decoy = SecretString::new("decoy".to_owned());
        proof {
            reveal_strlit("decoy");
            byte_len_at_most("decoy"@);
        }
        match hash_secret(&decoy) {
            Ok(decoy_hash) => Backend { users, decoy_hash },
            Err(_) => unreached(),
        }
    }

    /// The user store, to read.
    pub fn users(&self) -> (users: &R)
        ensures
            *users == self.store(),
    {
        &self.users
    }

    /// The user store, handed back.
    pub fn into_store(self) -> (users: R)
        ensures
            users == self.store(),
    {
        self.users
    }

    /// The hash against which the passwords for unknown emails are held.
    pub fn decoy_hash(&self) -> (hash: &str)
        ensures
            hash@ == self.decoy(),
    {
        self.decoy_hash.as_str()
    }

    /// Looks the user up by email and checks the password.
    pub fn authenticate(&self, creds: &Credentials) -> (r: Result<Option<User>, AuthError>)
        ensures
            r is Ok || self.store().dependable() ==> answer(r) == authentication(
                first_with_email(self.store().users(), creds.email@),
                creds.password@,
            ),
            r matches Err(e) ==> e == AuthError::Internal,
    {
        authenticate(&self.users, creds, self.decoy_hash.as_str())
    }

    /// Looks the user up by id.
    pub fn load_user(&self, id: u128) -> (r: Result<Option<User>, AuthError>)
        ensures
            self.store().dependable() ==> r is Ok,
            r matches Ok(found) ==> seen(found) == first_with_id(self.store().users(), id),
            r matches Err(e) ==> e == AuthError::Internal,
    {
        load_user(&self.users, id)
    }
}

} // verus!
