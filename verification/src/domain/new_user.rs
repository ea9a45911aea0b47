//! A registration that has passed validation.

use crate::domain::user_email::{email_syntax_ok, UserEmail};
use crate::domain::user_password::{strong_password, UserPassword};
use crate::domain::validation_error::ValidationError;
use crate::routes::auth::RegistrationForm;
use vstd::prelude::*;

verus! {

/// An email and a password that have both passed validation. There is no
/// other way to a value of this type.
#[derive(Debug)]
pub struct NewUser {
    pub email: UserEmail,
    pub password: UserPassword,
}

impl NewUser {
    /// Validates the email, then the password, and keeps both as they came.
    /// An empty email, and one without `@`, is refused as no email address.
    pub fn try_from(value: RegistrationForm) -> (r: Result<NewUser, ValidationError>)
        ensures
            email_syntax_ok(value.email@) && strong_password(value.password@) ==> (r matches Ok(
                new_user,
            ) && new_user.email@ == value.email@ && new_user.password@ == value.password@),
            !email_syntax_ok(value.email@) ==> (r matches Err(ValidationError::InvalidEmail(input))
                && input@ == value.email@),
            email_syntax_ok(value.email@) && !strong_password(value.password@) ==> r matches Err(
                ValidationError::WeakPassword,
            ),
            value.email@.len() == 0 || !value.email@.contains('@') ==> r matches Err(
                ValidationError::InvalidEmail(_),
            ),
    {
        let email = match UserEmail::parse(value.email) {
            Ok(email) => email,
            Err(e) => {
                return Err(e);
            },
        };
        let password = match UserPassword::parse(value.password) {
            Ok(password) => password,
            Err(e) => {
                return Err(e);
            },
        };
        Ok(NewUser { email, password })
    }
}

} // verus!
