//! A password that has passed the password rules, held as a secret.

use crate::domain::validation_error::ValidationError;
use crate::text::{
    is_alphanumeric, is_ascii_digit, is_ascii_lowercase, is_ascii_uppercase, is_digit, is_lower,
    is_upper, some_char, some_char_push, unicode_alphanumeric,
};
use secrecy::{ExposeSecret, Secret};
use vstd::prelude::*;
use vstd::utf8::encode_utf8;

verus! {

/// A secret string: a `Secret<String>` of secrecy, which wipes the text from
/// memory when the value is dropped and which no formatting shows. The
/// verifier does not look inside; all that is known of a value is the text
/// that `secret_text` names.
#[verifier::external_body]
#[derive(Debug)]
pub struct SecretString(Secret<String>);

/// The text that a secret string guards.
pub uninterp spec fn secret_text(secret: SecretString) -> Seq<char>;

/// The least number of bytes a password has.
pub const MIN_PASSWORD_BYTES: usize = 8;

/// The password rules, in the order in which they are tried.
#[derive(Clone, Copy, Debug, PartialEq, Eq, Structural)]
pub enum PasswordRule {
    MinLength,
    Lowercase,
    Uppercase,
    Digit,
    Special,
}

impl PasswordRule {
    /// What the rule asks of a password, in words.
    pub open spec fn message_text(self) -> Seq<char> {
        match self {
            PasswordRule::MinLength => "Password must be at least 8 characters long"@,
            PasswordRule::Lowercase => "Password must contain at least one lowercase letter"@,
            PasswordRule::Uppercase => "Password must contain at least one uppercase letter"@,
            PasswordRule::Digit => "Password must contain at least one digit"@,
            PasswordRule::Special => "Password must contain at least one special character"@,
        }
    }

    pub fn message(&self) -> (text: &'static str)
        ensures
            text@ == self.message_text(),
    {
        match self {
            PasswordRule::MinLength => "Password must be at least 8 characters long",
            PasswordRule::Lowercase => "Password must contain at least one lowercase letter",
            PasswordRule::Uppercase => "Password must contain at least one uppercase letter",
            PasswordRule::Digit => "Password must contain at least one digit",
            PasswordRule::Special => "Password must contain at least one special character",
        }
    }
}

/// What the rules look at in a password.
#[derive(Clone, Copy, Debug, PartialEq, Eq, Structural)]
pub struct PasswordTraits {
    /// Its length in bytes, as UTF-8.
    pub bytes: usize,
    pub has_lowercase: bool,
    pub has_uppercase: bool,
    pub has_digit: bool,
    /// Whether some character is neither a letter nor a number.
    pub has_special: bool,
}

/// The number of bytes of a text, as UTF-8.
pub open spec fn byte_len(text: Seq<char>) -> nat {
    encode_utf8(text).len()
}

pub open spec fn has_lowercase(text: Seq<char>) -> bool {
    some_char(text, |c: char| is_lower(c))
}

pub open spec fn has_uppercase(text: Seq<char>) -> bool {
    some_char(text, |c: char| is_upper(c))
}

pub open spec fn has_digit(text: Seq<char>) -> bool {
    some_char(text, |c: char| is_digit(c))
}

/// Whether some character of the text is neither a letter nor a number.
pub open spec fn has_special(text: Seq<char>) -> bool {
    some_char(text, |c: char| !unicode_alphanumeric(c))
}

/// Whether `traits` describes `text`.
pub open spec fn traits_of(text: Seq<char>, traits: PasswordTraits) -> bool {
    &&& traits.bytes == byte_len(text)
    &&& traits.has_lowercase == has_lowercase(text)
    &&& traits.has_uppercase == has_uppercase(text)
    &&& traits.has_digit == has_digit(text)
    &&& traits.has_special == has_special(text)
}

/// The first rule, in their order, that a password with these traits breaks.
pub open spec fn first_broken(traits: PasswordTraits) -> Option<PasswordRule> {
    if traits.bytes < MIN_PASSWORD_BYTES {
        Some(PasswordRule::MinLength)
    } else if !traits.has_lowercase {
        Some(PasswordRule::Lowercase)
    } else if !traits.has_uppercase {
        Some(PasswordRule::Uppercase)
    } else if !traits.has_digit {
        Some(PasswordRule::Digit)
    } else if !traits.has_special {
        Some(PasswordRule::Special)
    } else {
        None
    }
}

/// The first rule, in their order, that a text breaks.
pub open spec fn broken_rule(text: Seq<char>) -> Option<PasswordRule> {
    if byte_len(text) < MIN_PASSWORD_BYTES {
        Some(PasswordRule::MinLength)
    } else if !has_lowercase(text) {
        Some(PasswordRule::Lowercase)
    } else if !has_uppercase(text) {
        Some(PasswordRule::Uppercase)
    } else if !has_digit(text) {
        Some(PasswordRule::Digit)
    } else if !has_special(text) {
        Some(PasswordRule::Special)
    } else {
        None
    }
}

/// Whether a text meets every password rule: at least eight bytes, a
/// lower-case and an upper-case ASCII letter, an ASCII digit, and a character
/// that is neither a letter nor a number.
pub open spec fn strong_password(text: Seq<char>) -> bool {
    &&& byte_len(text) >= MIN_PASSWORD_BYTES
    &&& has_lowercase(text)
    &&& has_uppercase(text)
    &&& has_digit(text)
    &&& has_special(text)
}

/// A text meets every rule exactly if there is no first rule that it breaks,
/// and the rule that a text breaks first is the one that its traits break
/// first.
pub proof fn broken_rule_by_traits(text: Seq<char>, traits: PasswordTraits)
    requires
        traits_of(text, traits),
    ensures
        strong_password(text) <==> broken_rule(text) is None,
        broken_rule(text) == first_broken(traits),
{
}

impl View for SecretString {
    type V = Seq<char>;

    open spec fn view(&self) -> Seq<char> {
        secret_text(*self)
    }
}

/// `Secret::new` of secrecy, which moves the text into the secret: the secret
/// guards exactly the text it is given.
#[verifier::external_body]
fn seal(text: String) -> (secret: SecretString)
    ensures
        secret_text(secret) == text@,
{
    SecretString(Secret::new(text))
}

impl SecretString {
    /// A secret that guards the text.
    pub fn new(text: String) -> (secret: SecretString)
        ensures
            secret@ == text@,
    {
        seal(text)
    }

    /// `ExposeSecret::expose_secret` of secrecy: a reference to the guarded
    /// text, unchanged.
    #[verifier::external_body]
    pub(crate) fn expose(&self) -> (text: &str)
        ensures
            text@ == secret_text(*self),
    {
        self.0.expose_secret().as_str()
    }
}

/// Looks at a password once and notes what the rules ask about.
pub fn password_traits(text: &str) -> (traits: PasswordTraits)
    ensures
        traits_of(text@, traits),
{
    let mut has_lowercase = false;
    let mut has_uppercase = false;
    let mut has_digit = false;
    let mut has_special = false;
    let ghost mut seen: Seq<char> = Seq::empty();
    for c in it: text.chars()
        invariant
            it.seq() == text@,
            seen == it.history(),
            has_lowercase == self::has_lowercase(seen),
            has_uppercase == self::has_uppercase(seen),
            has_digit == self::has_digit(seen),
            has_special == self::has_special(seen),
    {
        proof {
            some_char_push(seen, c, |c: char| is_lower(c));
            some_char_push(seen, c, |c: char| is_upper(c));
            some_char_push(seen, c, |c: char| is_digit(c));
            some_char_push(seen, c, |c: char| !unicode_alphanumeric(c));
            seen = seen.push(c);
        }
        has_lowercase = has_lowercase || is_ascii_lowercase(c);
        has_uppercase = has_uppercase || is_ascii_uppercase(c);
        has_digit = has_digit || is_ascii_digit(c);
        has_special = has_special || !is_alphanumeric(c);
    }
    assert(seen =~= text@);
    PasswordTraits {
        bytes: text.as_bytes().len(),
        has_lowercase,
        has_uppercase,
        has_digit,
        has_special,
    }
}

/// Holds a password's traits against the rules, in their order.
pub fn check_traits(traits: PasswordTraits) -> (r: Result<(), PasswordRule>)
    ensures
        r == match first_broken(traits) {
            Some(rule) => Err::<(), PasswordRule>(rule),
            None => Ok(()),
        },
{
    if traits.bytes < MIN_PASSWORD_BYTES {
        Err(PasswordRule::MinLength)
    } else if !traits.has_lowercase {
        Err(PasswordRule::Lowercase)
    } else if !traits.has_uppercase {
        Err(PasswordRule::Uppercase)
    } else if !traits.has_digit {
        Err(PasswordRule::Digit)
    } else if !traits.has_special {
        Err(PasswordRule::Special)
    } else {
        Ok(())
    }
}

/// Holds a password against the rules and names the first one it breaks.
pub fn validate_password(secret_password: &SecretString) -> (r: Result<(), PasswordRule>)
    ensures
        r == match broken_rule(secret_password@) {
            Some(rule) => Err::<(), PasswordRule>(rule),
            None => Ok(()),
        },
        r is Ok <==> strong_password(secret_password@),
{
    let password = secret_password.expose();
    let traits = password_traits(password);
    proof {
        broken_rule_by_traits(secret_password@, traits);
    }
    check_traits(traits)
}

/// A password that meets the password rules. It is shown to nothing but the
/// hasher.
#[derive(Debug)]
pub struct UserPassword {
    password: SecretString,
}

impl View for UserPassword {
    type V = Seq<char>;

    closed spec fn view(&self) -> Seq<char> {
        self.password@
    }
}

impl UserPassword {
    #[verifier::type_invariant]
    spec fn strong(self) -> bool {
        strong_password(self.password@)
    }

    /// Accepts exactly the passwords that meet every rule.
    pub fn parse(s: SecretString) -> (r: Result<UserPassword, ValidationError>)
        ensures
            strong_password(s@) ==> (r matches Ok(password) && password@ == s@),
            !strong_password(s@) ==> r matches Err(ValidationError::WeakPassword),
            byte_len(s@) < 8 || !has_lowercase(s@) || !has_uppercase(s@) || !has_digit(s@)
                || !has_special(s@) ==> r is Err,
    {
        match validate_password(&s) {
            Ok(_) => Ok(UserPassword { password: s }),
            Err(_) => Err(ValidationError::WeakPassword),
        }
    }

    /// The secret, for the hasher.
    pub fn as_ref(&self) -> (secret: &SecretString)
        ensures
            secret@ == self@,
            strong_password(self@),
    {
        proof {
            use_type_invariant(self);
        }
        &self.password
    }
}

} // verus!
