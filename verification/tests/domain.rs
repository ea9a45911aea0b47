use tradesalsa::domain::user_email::{email_verdict, is_email};
use tradesalsa::domain::user_password::{
    check_traits, password_traits, validate_password, PasswordRule, PasswordTraits, SecretString,
};
use tradesalsa::domain::{NewUser, UserEmail, UserPassword, ValidationError};
use tradesalsa::routes::auth::RegistrationForm;

fn secret(text: &str) -> SecretString {
    SecretString::new(text.to_string())
}

#[test]
fn user_email_empty_string_is_rejected() {
    let email = "".to_string();
    assert!(UserEmail::parse(email).is_err());
}

#[test]
fn email_missing_at_symbol_is_rejected() {
    let email = "ursuladomain.com".to_string();
    assert!(UserEmail::parse(email).is_err());
}

#[test]
fn email_missing_subject_is_rejected() {
    let email = "@domain.com".to_string();
    assert!(UserEmail::parse(email).is_err());
}

#[test]
fn valid_emails_are_parsed_successfully() {
    for text in [
        "ursula@domain.com",
        "a@b.co",
        "weirder-email@here.and.there.com",
        "UPPER.case+tag@Example.ORG",
        "email@[127.0.0.1]",
    ] {
        let email = UserEmail::parse(text.to_string());
        assert!(email.is_ok(), "{text}");
        assert_eq!(email.unwrap().as_ref(), text);
    }
}

#[test]
fn email_with_two_at_signs_or_a_space_is_rejected() {
    assert!(UserEmail::parse("something@@somewhere.com".to_string()).is_err());
    assert!(UserEmail::parse("a @x.cz".to_string()).is_err());
    assert!(UserEmail::parse("abc@".to_string()).is_err());
}

#[test]
fn rejected_email_is_named_in_the_message() {
    let error = UserEmail::parse("ursuladomain.com".to_string()).unwrap_err();
    assert!(matches!(&error, ValidationError::InvalidEmail(input) if input == "ursuladomain.com"));
    assert_eq!(error.message(), "ursuladomain.com is not a valid subscriber email.");
}

#[test]
fn is_email_agrees_with_parse() {
    assert!(is_email("ursula@domain.com"));
    assert!(!is_email(""));
    assert!(!is_email("ursuladomain.com"));
    assert!(!is_email("@domain.com"));
}

#[test]
fn email_verdict_follows_the_check() {
    assert_eq!(email_verdict("anything".to_string(), true).unwrap(), "anything");
    let error = email_verdict("a@b.co".to_string(), false).unwrap_err();
    assert!(matches!(error, ValidationError::InvalidEmail(input) if input == "a@b.co"));
}

#[test]
fn user_password_empty_string_is_rejected() {
    let password = "".to_string();
    assert!(UserPassword::parse(SecretString::new(password)).is_err());
}

#[test]
fn password_too_short_is_rejected() {
    let password = "Short1!".to_string();
    assert!(UserPassword::parse(SecretString::new(password)).is_err());
}

#[test]
fn password_missing_lowercase_is_rejected() {
    let password = "PASSWORD1!".to_string();
    assert!(UserPassword::parse(SecretString::new(password)).is_err());
}

#[test]
fn password_missing_uppercase_is_rejected() {
    let password = "password1!".to_string();
    assert!(UserPassword::parse(SecretString::new(password)).is_err());
}

#[test]
fn password_missing_digit_is_rejected() {
    let password = "Password!".to_string();
    assert!(UserPassword::parse(SecretString::new(password)).is_err());
}

#[test]
fn password_missing_special_character_is_rejected() {
    let password = "Password1".to_string();
    assert!(UserPassword::parse(SecretString::new(password)).is_err());
}

#[test]
fn valid_passwords_are_parsed_successfully() {
    assert!(UserPassword::parse(secret("Valid1Password!")).is_ok());
    assert!(UserPassword::parse(secret("aA1!aaaa")).is_ok());
    assert!(UserPassword::parse(secret("Zz9 zzzzzzzz")).is_ok());
}

#[test]
fn weak_password_has_one_message() {
    let error = UserPassword::parse(secret("Short1!")).unwrap_err();
    assert!(matches!(error, ValidationError::WeakPassword));
    assert_eq!(error.message(), "Password is not a valid format.");
}

#[test]
fn first_broken_rule_is_named() {
    assert_eq!(validate_password(&secret("")), Err(PasswordRule::MinLength));
    assert_eq!(validate_password(&secret("Short1!")), Err(PasswordRule::MinLength));
    assert_eq!(validate_password(&secret("PASSWORD1!")), Err(PasswordRule::Lowercase));
    assert_eq!(validate_password(&secret("password1!")), Err(PasswordRule::Uppercase));
    assert_eq!(validate_password(&secret("Password!")), Err(PasswordRule::Digit));
    assert_eq!(validate_password(&secret("Password1")), Err(PasswordRule::Special));
    assert_eq!(validate_password(&secret("Valid1Password!")), Ok(()));
}

#[test]
fn rules_are_tried_in_order() {
    // Nothing but a long run of one special character: lower case is asked for first.
    assert_eq!(validate_password(&secret("!!!!!!!!")), Err(PasswordRule::Lowercase));
    assert_eq!(validate_password(&secret("a!!!!!!!")), Err(PasswordRule::Uppercase));
    assert_eq!(validate_password(&secret("aA!!!!!!")), Err(PasswordRule::Digit));
}

#[test]
fn rule_messages() {
    assert_eq!(PasswordRule::MinLength.message(), "Password must be at least 8 characters long");
    assert_eq!(
        PasswordRule::Lowercase.message(),
        "Password must contain at least one lowercase letter"
    );
    assert_eq!(
        PasswordRule::Uppercase.message(),
        "Password must contain at least one uppercase letter"
    );
    assert_eq!(PasswordRule::Digit.message(), "Password must contain at least one digit");
    assert_eq!(
        PasswordRule::Special.message(),
        "Password must contain at least one special character"
    );
}

#[test]
fn length_is_counted_in_bytes() {
    // Seven characters, ten bytes.
    assert_eq!(password_traits("Aa1!ééé").bytes, 10);
    assert!(UserPassword::parse(secret("Aa1!ééé")).is_ok());
    // Seven characters, seven bytes.
    assert!(UserPassword::parse(secret("Aa1!aaa")).is_err());
}

#[test]
fn letters_of_other_alphabets_are_not_special() {
    // 'é' and 'ß' are letters, '٣' is a number: none of them is special.
    assert_eq!(validate_password(&secret("Passw0rdéß٣")), Err(PasswordRule::Special));
    assert!(!password_traits("Passw0rdéß٣").has_special);
    // A space, a dash and an emoji are.
    assert!(password_traits("a b").has_special);
    assert!(password_traits("a-b").has_special);
    assert!(password_traits("a💝b").has_special);
}

#[test]
fn traits_of_a_password() {
    assert_eq!(
        password_traits("Valid1Password!"),
        PasswordTraits {
            bytes: 15,
            has_lowercase: true,
            has_uppercase: true,
            has_digit: true,
            has_special: true,
        }
    );
    assert_eq!(
        password_traits(""),
        PasswordTraits {
            bytes: 0,
            has_lowercase: false,
            has_uppercase: false,
            has_digit: false,
            has_special: false,
        }
    );
    // Letters and digits outside ASCII count for none of the three ASCII rules.
    assert_eq!(
        password_traits("ÉÉéé٣٣"),
        PasswordTraits {
            bytes: 12,
            has_lowercase: false,
            has_uppercase: false,
            has_digit: false,
            has_special: false,
        }
    );
}

#[test]
fn traits_are_held_against_the_rules() {
    let all = PasswordTraits {
        bytes: 8,
        has_lowercase: true,
        has_uppercase: true,
        has_digit: true,
        has_special: true,
    };
    assert_eq!(check_traits(all), Ok(()));
    assert_eq!(check_traits(PasswordTraits { bytes: 7, ..all }), Err(PasswordRule::MinLength));
    assert_eq!(
        check_traits(PasswordTraits { has_lowercase: false, ..all }),
        Err(PasswordRule::Lowercase)
    );
    assert_eq!(
        check_traits(PasswordTraits { has_uppercase: false, ..all }),
        Err(PasswordRule::Uppercase)
    );
    assert_eq!(check_traits(PasswordTraits { has_digit: false, ..all }), Err(PasswordRule::Digit));
    assert_eq!(
        check_traits(PasswordTraits { has_special: false, ..all }),
        Err(PasswordRule::Special)
    );
    assert_eq!(
        check_traits(PasswordTraits { bytes: 0, has_special: false, ..all }),
        Err(PasswordRule::MinLength)
    );
}

#[test]
fn new_user_keeps_what_it_was_given() {
    let form = RegistrationForm {
        email: "ursula@domain.com".to_string(),
        password: secret("Valid1Password!"),
    };
    let new_user = NewUser::try_from(form).unwrap();
    assert_eq!(new_user.email.as_ref(), "ursula@domain.com");
}

#[test]
fn new_user_checks_the_email_first() {
    let form = RegistrationForm { email: "nobody".to_string(), password: secret("a") };
    let error = NewUser::try_from(form).unwrap_err();
    assert!(matches!(error, ValidationError::InvalidEmail(input) if input == "nobody"));

    let form = RegistrationForm { email: "ursula@domain.com".to_string(), password: secret("a") };
    let error = NewUser::try_from(form).unwrap_err();
    assert!(matches!(error, ValidationError::WeakPassword));
}

#[test]
fn new_user_refuses_an_empty_email_and_one_without_at() {
    for email in ["", "ursuladomain.com"] {
        let form =
            RegistrationForm { email: email.to_string(), password: secret("Valid1Password!") };
        let error = NewUser::try_from(form).unwrap_err();
        assert!(matches!(error, ValidationError::InvalidEmail(input) if input == email));
    }
}

#[test]
fn secrets_are_not_shown() {
    let shown = format!("{:?}", secret("Valid1Password!"));
    assert!(!shown.contains("Valid1Password!"));
    let password = UserPassword::parse(secret("Valid1Password!")).unwrap();
    assert!(!format!("{:?}", password).contains("Valid1Password!"));
}
