//! What the authentication core knows of a user.

use crate::constants::strings;
use crate::domain::user_password::SecretString;
use crate::text::same_ignoring_ascii_case;
use vstd::prelude::*;

verus! {

/// A registered user, as contracts speak of one.
pub struct UserView {
    pub id: u128,
    pub email: Seq<char>,
    pub password_hash: Seq<char>,
    pub created_at: i64,
    pub updated_at: i64,
}

/// A registered user.
#[derive(Debug)]
pub struct User {
    /// Made at registration, and never changed.
    pub id: u128,
    pub email: String,
    /// As the hasher made it; never the password itself.
    pub password_hash: String,
    /// Seconds since the epoch.
    pub created_at: i64,
    /// Seconds since the epoch.
    pub updated_at: i64,
}

impl View for User {
    type V = UserView;

    open spec fn view(&self) -> UserView {
        UserView {
            id: self.id,
            email: self.email@,
            password_hash: self.password_hash@,
            created_at: self.created_at,
            updated_at: self.updated_at,
        }
    }
}

impl User {
    /// A copy of the user.
    pub fn duplicate(&self) -> (copy: User)
        ensures
            copy@ == self@,
    {
        User {
            id: self.id,
            email: self.email.clone(),
            password_hash: self.password_hash.clone(),
            created_at: self.created_at,
            updated_at: self.updated_at,
        }
    }
}

/// Whether the number is a UUID of version 4, its sixteen bytes read as one
/// number, first byte first: the version is 4 and the variant is the one of
/// RFC 4122.
pub open spec fn is_random_uuid(id: u128) -> bool {
    id & 0x0000_0000_0000_F000_C000_0000_0000_0000 == 0x0000_0000_0000_4000_8000_0000_0000_0000
}

/// `Uuid::new_v4` of uuid, read by `Uuid::as_u128`: a random UUID of version
/// 4. Version and variant are fixed; the other 122 bits are random.
#[verifier::external_body]
pub(crate) fn fresh_user_id() -> (id: u128)
    ensures
        is_random_uuid(id),
{
    uuid::Uuid::new_v4().as_u128()
}

/// The user in an optional user, as contracts speak of it.
pub open spec fn seen(found: Option<User>) -> Option<UserView> {
    match found {
        Some(user) => Some(user@),
        None => None,
    }
}

/// What a login request carries. It lives as long as the request.
#[derive(Debug)]
pub struct Credentials {
    pub email: String,
    /// Shown to nothing but the hasher.
    pub password: SecretString,
    /// Where to go after the login.
    pub next: Option<String>,
}

/// Why a user could not be authenticated or loaded.
#[derive(Clone, Copy, Debug, PartialEq, Eq, Structural)]
pub enum AuthError {
    /// Email or password is wrong. Which of the two is not said.
    InvalidCredentials,
    /// The user store failed, or what it holds cannot be used.
    Internal,
}

impl AuthError {
    pub open spec fn message_text(self) -> Seq<char> {
        match self {
            AuthError::InvalidCredentials => strings::INVALID_CREDENTIALS@,
            AuthError::Internal => strings::INTERNAL_SERVER_ERROR@,
        }
    }

    /// The text shown to the user. It names no cause.
    pub fn message(&self) -> (text: &'static str)
        ensures
            text@ == self.message_text(),
    {
        match self {
            AuthError::InvalidCredentials => strings::INVALID_CREDENTIALS,
            AuthError::Internal => strings::INTERNAL_SERVER_ERROR,
        }
    }
}

/// The first of `users` whose email is `email`, ASCII letters compared without
/// case.
pub open spec fn first_with_email(users: Seq<UserView>, email: Seq<char>) -> Option<UserView>
    decreases users.len(),
{
    if users.len() == 0 {
        None
    } else if same_ignoring_ascii_case(users[0].email, email) {
        Some(users[0])
    } else {
        first_with_email(users.drop_first(), email)
    }
}

/// The first of `users` whose id is `id`.
pub open spec fn first_with_id(users: Seq<UserView>, id: u128) -> Option<UserView>
    decreases users.len(),
{
    if users.len() == 0 {
        None
    } else if users[0].id == id {
        Some(users[0])
    } else {
        first_with_id(users.drop_first(), id)
    }
}

/// Where users are kept: what authentication needs of a store, and no more.
pub trait UserRepository {
    /// The users that the store holds.
    spec fn users(&self) -> Seq<UserView>;

    /// Whether every lookup is answered. A store on the far side of a network
    /// is not dependable.
    spec fn dependable(&self) -> bool;

    /// The user registered under the email, ASCII letters compared without
    /// case.
    fn find_by_email(&self, email: &str) -> (r: Result<Option<User>, AuthError>)
        ensures
            self.dependable() ==> r is Ok,
            r matches Ok(found) ==> seen(found) == first_with_email(self.users(), email@),
            r matches Err(e) ==> e == AuthError::Internal,
    ;

    /// The user with the id.
    fn find_by_id(&self, id: u128) -> (r: Result<Option<User>, AuthError>)
        ensures
            self.dependable() ==> r is Ok,
            r matches Ok(found) ==> seen(found) == first_with_id(self.users(), id),
            r matches Err(e) ==> e == AuthError::Internal,
    ;
}

} // verus!
