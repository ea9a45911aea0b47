//! Why a credential was refused.

use crate::text::join;
use vstd::prelude::*;

verus! {

/// A credential that did not pass validation. The user can always mend it.
#[derive(Debug)]
pub enum ValidationError {
    /// The text is no email address; it is kept for the message.
    InvalidEmail(String),
    /// The password breaks one of the password rules.
    WeakPassword,
}

impl ValidationError {
    /// The text shown to the user.
    pub open spec fn message_text(self) -> Seq<char> {
        match self {
            ValidationError::InvalidEmail(input) => input@ + " is not a valid subscriber email."@,
            ValidationError::WeakPassword => "Password is not a valid format."@,
        }
    }

    pub fn message(&self) -> (text: String)
        ensures
            text@ == self.message_text(),
    {
        match self {
            ValidationError::InvalidEmail(input) => join(
                input.as_str(),
                " is not a valid subscriber email.",
            ),
            ValidationError::WeakPassword => "Password is not a valid format.".to_owned(),
        }
    }
}

} // verus!
