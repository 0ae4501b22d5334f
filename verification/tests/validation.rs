use stellar_wallet::errors::{AppError, Field, ValidationFailure};
use stellar_wallet::models::user::CreateUserRequest;
use stellar_wallet::utils::validation::Validator;

fn rejected(failure: ValidationFailure) -> Result<(), AppError> {
    Err(AppError::ValidationError(failure))
}

fn request(email: &str, username: &str, password: &str) -> CreateUserRequest {
    CreateUserRequest {
        email: email.to_string(),
        username: username.to_string(),
        password: password.to_string(),
    }
}

#[test]
fn short_password_without_classes_is_rejected() {
    assert_eq!(Validator::validate_password("abc"), rejected(ValidationFailure::PasswordTooShort));
}

#[test]
fn strong_password_is_accepted() {
    assert_eq!(Validator::validate_password("Abcdef1!"), Ok(()));
}

#[test]
fn every_unmet_password_rule_is_listed() {
    assert_eq!(
        Validator::password_failures("abc"),
        vec![
            ValidationFailure::PasswordTooShort,
            ValidationFailure::PasswordMissingUppercase,
            ValidationFailure::PasswordMissingDigit,
            ValidationFailure::PasswordMissingSpecial,
        ]
    );
    assert_eq!(Validator::password_failures("Abcdef1!"), vec![]);
    assert_eq!(
        Validator::password_failures(""),
        vec![
            ValidationFailure::PasswordTooShort,
            ValidationFailure::PasswordMissingUppercase,
            ValidationFailure::PasswordMissingLowercase,
            ValidationFailure::PasswordMissingDigit,
            ValidationFailure::PasswordMissingSpecial,
        ]
    );
    assert_eq!(
        Validator::password_failures("ABCDEFGH1"),
        vec![ValidationFailure::PasswordMissingLowercase, ValidationFailure::PasswordMissingSpecial]
    );
    assert_eq!(Validator::password_failures("Ab1!"), vec![ValidationFailure::PasswordTooShort]);
}

#[test]
fn password_rules_are_reported_in_order() {
    assert_eq!(Validator::validate_password(""), rejected(ValidationFailure::PasswordTooShort));
    assert_eq!(
        Validator::validate_password("Abcde1!"),
        rejected(ValidationFailure::PasswordTooShort)
    );
    assert_eq!(
        Validator::validate_password("abcdefgh"),
        rejected(ValidationFailure::PasswordMissingUppercase)
    );
    assert_eq!(
        Validator::validate_password("ABCDEFGH"),
        rejected(ValidationFailure::PasswordMissingLowercase)
    );
    assert_eq!(
        Validator::validate_password("Abcdefgh"),
        rejected(ValidationFailure::PasswordMissingDigit)
    );
    assert_eq!(
        Validator::validate_password("Abcdefg1"),
        rejected(ValidationFailure::PasswordMissingSpecial)
    );
}

#[test]
fn password_length_counts_characters() {
    // Seven characters, more than eight bytes.
    assert_eq!(
        Validator::validate_password("Aé1!éé\u{fc}"),
        rejected(ValidationFailure::PasswordTooShort)
    );
    assert_eq!(Validator::validate_password("Aé1!ééé\u{fc}"), rejected(ValidationFailure::PasswordMissingLowercase));
    assert_eq!(Validator::validate_password("Aéb1!ééé"), Ok(()));
}

#[test]
fn every_special_character_counts() {
    for special in "!@#$%^&*()_+-=[]{}|;:,.<>?".chars() {
        let password = format!("Abcdefg1{}", special);
        assert_eq!(Validator::validate_password(&password), Ok(()));
    }
    for other in "~`'\"/\\ ".chars() {
        let password = format!("Abcdefg1{}", other);
        assert_eq!(
            Validator::validate_password(&password),
            rejected(ValidationFailure::PasswordMissingSpecial)
        );
    }
}

#[test]
fn letters_outside_ascii_are_no_letters() {
    assert_eq!(
        Validator::validate_password("ÀBCDEFG1!a".replace('B', "É").as_str()),
        Ok(())
    );
    assert_eq!(
        Validator::validate_password("Éabcdef1!"),
        rejected(ValidationFailure::PasswordMissingUppercase)
    );
    assert_eq!(
        Validator::validate_password("ABCDEFé1!"),
        rejected(ValidationFailure::PasswordMissingLowercase)
    );
    assert_eq!(
        Validator::validate_password("Abcdefg\u{0661}!"),
        rejected(ValidationFailure::PasswordMissingDigit)
    );
}

#[test]
fn empty_email_is_rejected() {
    assert_eq!(Validator::validate_email(""), rejected(ValidationFailure::EmailEmpty));
}

#[test]
fn email_needs_local_part_at_sign_and_dotted_domain() {
    for email in ["userexample.com", "@example.com", "user@", "user@example", "user.name@host", "@", ".", "a.b@c", "@."] {
        assert_eq!(
            Validator::validate_email(email),
            rejected(ValidationFailure::EmailMalformed),
            "{}",
            email
        );
    }
    for email in ["user@example.com", "a@b.c", "a@.", "first.last@mail.example.org", "a@b@c.d", "@a@b.c"] {
        assert_eq!(Validator::validate_email(email), Ok(()), "{}", email);
    }
}

#[test]
fn username_rules_are_reported_in_order() {
    assert_eq!(Validator::validate_username(""), rejected(ValidationFailure::UsernameEmpty));
    assert_eq!(Validator::validate_username("ab"), rejected(ValidationFailure::UsernameTooShort));
    assert_eq!(Validator::validate_username("a!"), rejected(ValidationFailure::UsernameTooShort));
    assert_eq!(
        Validator::validate_username(&"a".repeat(33)),
        rejected(ValidationFailure::UsernameTooLong)
    );
    assert_eq!(
        Validator::validate_username(&"!".repeat(33)),
        rejected(ValidationFailure::UsernameTooLong)
    );
    assert_eq!(
        Validator::validate_username("bad name"),
        rejected(ValidationFailure::UsernameInvalidCharacter)
    );
    assert_eq!(
        Validator::validate_username("user@home"),
        rejected(ValidationFailure::UsernameInvalidCharacter)
    );
    assert_eq!(
        Validator::validate_username("josé"),
        rejected(ValidationFailure::UsernameInvalidCharacter)
    );
}

#[test]
fn username_bounds_are_inclusive() {
    assert_eq!(Validator::validate_username("abc"), Ok(()));
    assert_eq!(Validator::validate_username(&"a".repeat(32)), Ok(()));
    assert_eq!(Validator::validate_username("User_Name_09"), Ok(()));
    assert_eq!(Validator::validate_username("___"), Ok(()));
}

#[test]
fn request_is_checked_email_first_then_username_then_password() {
    assert_eq!(
        Validator::validate_request(&request("bad", "x", "weak")),
        rejected(ValidationFailure::EmailMalformed)
    );
    assert_eq!(
        Validator::validate_request(&request("a@b.c", "x", "weak")),
        rejected(ValidationFailure::UsernameTooShort)
    );
    assert_eq!(
        Validator::validate_request(&request("a@b.c", "alice", "weak")),
        rejected(ValidationFailure::PasswordTooShort)
    );
    assert_eq!(Validator::validate_request(&request("a@b.c", "alice", "Abcdef1!")), Ok(()));
}

#[test]
fn failure_names_its_field() {
    assert_eq!(ValidationFailure::EmailEmpty.field(), Field::Email);
    assert_eq!(ValidationFailure::EmailMalformed.field(), Field::Email);
    assert_eq!(ValidationFailure::UsernameEmpty.field(), Field::Username);
    assert_eq!(ValidationFailure::UsernameTooShort.field(), Field::Username);
    assert_eq!(ValidationFailure::UsernameTooLong.field(), Field::Username);
    assert_eq!(ValidationFailure::UsernameInvalidCharacter.field(), Field::Username);
    assert_eq!(ValidationFailure::PasswordTooShort.field(), Field::Password);
    assert_eq!(ValidationFailure::PasswordMissingUppercase.field(), Field::Password);
    assert_eq!(ValidationFailure::PasswordMissingLowercase.field(), Field::Password);
    assert_eq!(ValidationFailure::PasswordMissingDigit.field(), Field::Password);
    assert_eq!(ValidationFailure::PasswordMissingSpecial.field(), Field::Password);
}

#[test]
fn failures_have_distinct_reasons() {
    let failures = [
        ValidationFailure::EmailEmpty,
        ValidationFailure::EmailMalformed,
        ValidationFailure::UsernameEmpty,
        ValidationFailure::UsernameTooShort,
        ValidationFailure::UsernameTooLong,
        ValidationFailure::UsernameInvalidCharacter,
        ValidationFailure::PasswordTooShort,
        ValidationFailure::PasswordMissingUppercase,
        ValidationFailure::PasswordMissingLowercase,
        ValidationFailure::PasswordMissingDigit,
        ValidationFailure::PasswordMissingSpecial,
    ];
    for (i, one) in failures.iter().enumerate() {
        for other in failures.iter().skip(i + 1) {
            assert_ne!(one.reason(), other.reason());
        }
    }
    assert_eq!(
        ValidationFailure::PasswordTooShort.reason(),
        "Password must be at least 8 characters long"
    );
}

#[test]
fn error_message_has_category_and_detail() {
    assert_eq!(
        AppError::ValidationError(ValidationFailure::EmailMalformed).message(),
        "Validation Error: Invalid email format"
    );
    assert_eq!(AppError::DuplicateEmail.message(), "Validation Error: Email already exists");
    assert_eq!(AppError::DuplicateUsername.message(), "Validation Error: Username already exists");
    assert_eq!(
        AppError::AuthenticationError.message(),
        "Authentication Error: Invalid email/username or password"
    );
    assert_eq!(
        AppError::DatabaseError("disk full".to_string()).message(),
        "Database Error: disk full"
    );
    assert_eq!(
        AppError::StellarError("horizon down".to_string()).message(),
        "Stellar Error: horizon down"
    );
    assert_eq!(
        AppError::InternalError("lock poisoned".to_string()).message(),
        "Internal Error: lock poisoned"
    );
}

#[test]
fn error_clone_is_equal() {
    let error = AppError::DatabaseError("disk full".to_string());
    assert_eq!(error.clone(), error);
    assert_eq!(AppError::DuplicateEmail.clone(), AppError::DuplicateEmail);
}
