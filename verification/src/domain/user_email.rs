//! An email address that has passed validation.

use crate::domain::validation_error::ValidationError;
use vstd::prelude::*;

verus! {

/// Whether a text is an email address by the grammar of HTML5 forms: a local
/// part, `@`, and a domain name or an address literal.
pub uninterp spec fn email_syntax_ok(text: Seq<char>) -> bool;

/// `validator::validate_email`: whether the text is an email address by the
/// HTML5 grammar. The answer depends on the text alone; the empty text and a
/// text without `@` are refused before any grammar is tried.
#[verifier::external_body]
fn validate_email(text: &str) -> (ok: bool)
    ensures
        ok == email_syntax_ok(text@),
        text@.len() == 0 ==> !ok,
        !text@.contains('@') ==> !ok,
{
    validator::validate_email(text)
}

/// Whether the text is an email address.
pub fn is_email(text: &str) -> (ok: bool)
    ensures
        ok == email_syntax_ok(text@),
        text@.len() == 0 ==> !ok,
        !text@.contains('@') ==> !ok,
{
    validate_email(text)
}

/// What parsing answers for a text, once it is known whether the text is an
/// email address: the text itself, or the error that names it.
pub fn email_verdict(text: String, syntax_ok: bool) -> (r: Result<String, ValidationError>)
    ensures
        syntax_ok ==> (r matches Ok(kept) && kept@ == text@),
        !syntax_ok ==> (r matches Err(ValidationError::InvalidEmail(input)) && input@ == text@),
{
    if syntax_ok {
        Ok(text)
    } else {
        Err(ValidationError::InvalidEmail(text))
    }
}

/// An email address. A value of this type always holds a valid one.
#[derive(Debug)]
pub struct UserEmail {
    email: String,
}

impl View for UserEmail {
    type V = Seq<char>;

    closed spec fn view(&self) -> Seq<char> {
        self.email@
    }
}

impl UserEmail {
    #[verifier::type_invariant]
    spec fn valid(self) -> bool {
        email_syntax_ok(self.email@)
    }

    /// Accepts exactly the texts that are email addresses, and keeps the text
    /// as it came.
    pub fn parse(s: String) -> (r: Result<UserEmail, ValidationError>)
        ensures
            email_syntax_ok(s@) ==> (r matches Ok(email) && email@ == s@),
            !email_syntax_ok(s@) ==> (r matches Err(ValidationError::InvalidEmail(input))
                && input@ == s@),
            s@.len() == 0 ==> r is Err,
            !s@.contains('@') ==> r is Err,
    {
        let syntax_ok = validate_email(s.as_str());
        match email_verdict(s, syntax_ok) {
            Ok(email) => Ok(UserEmail { email }),
            Err(e) => Err(e),
        }
    }

    /// The address as text.
    pub fn as_ref(&self) -> (text: &str)
        ensures
            text@ == self@,
            email_syntax_ok(text@),
    {
        proof {
            use_type_invariant(self);
        }
        self.email.as_str()
    }
}

} // verus!
