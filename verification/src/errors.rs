use vstd::prelude::*;
use vstd::string::StringExecFns;

verus! {

/// The part of a registration request that a validation rule looks at.
#[derive(Clone, Copy, Debug, PartialEq, Eq, Structural)]
pub enum Field {
    Email,
    Username,
    Password,
}

/// The rule that a rejected credential breaks.
#[derive(Clone, Copy, Debug, PartialEq, Eq, Structural)]
pub enum ValidationFailure {
    EmailEmpty,
    EmailMalformed,
    UsernameEmpty,
    UsernameTooShort,
    UsernameTooLong,
    UsernameInvalidCharacter,
    PasswordTooShort,
    PasswordMissingUppercase,
    PasswordMissingLowercase,
    PasswordMissingDigit,
    PasswordMissingSpecial,
}

impl ValidationFailure {
    /// The field whose value broke the rule.
    pub open spec fn spec_field(self) -> Field {
        match self {
            ValidationFailure::EmailEmpty | ValidationFailure::EmailMalformed => Field::Email,
            ValidationFailure::UsernameEmpty
            | ValidationFailure::UsernameTooShort
            | ValidationFailure::UsernameTooLong
            | ValidationFailure::UsernameInvalidCharacter => Field::Username,
            ValidationFailure::PasswordTooShort
            | ValidationFailure::PasswordMissingUppercase
            | ValidationFailure::PasswordMissingLowercase
            | ValidationFailure::PasswordMissingDigit
            | ValidationFailure::PasswordMissingSpecial => Field::Password,
        }
    }

    /// The sentence shown to the user for this failure.
    pub open spec fn reason_text(self) -> Seq<char> {
        match self {
            ValidationFailure::EmailEmpty => "Email cannot be empty"@,
            ValidationFailure::EmailMalformed => "Invalid email format"@,
            ValidationFailure::UsernameEmpty => "Username cannot be empty"@,
            ValidationFailure::UsernameTooShort => "Username must be at least 3 characters long"@,
            ValidationFailure::UsernameTooLong => "Username must be at most 32 characters long"@,
            ValidationFailure::UsernameInvalidCharacter => "Username can only contain letters, digits and underscores"@,
            ValidationFailure::PasswordTooShort => "Password must be at least 8 characters long"@,
            ValidationFailure::PasswordMissingUppercase => "Password must contain at least one uppercase letter"@,
            ValidationFailure::PasswordMissingLowercase => "Password must contain at least one lowercase letter"@,
            ValidationFailure::PasswordMissingDigit => "Password must contain at least one digit"@,
            ValidationFailure::PasswordMissingSpecial => "Password must contain at least one special character"@,
        }
    }

    #[verifier::when_used_as_spec(spec_field)]
    pub fn field(self) -> (field: Field)
        ensures
            field == self.spec_field(),
    {
        match self {
            ValidationFailure::EmailEmpty | ValidationFailure::EmailMalformed => Field::Email,
            ValidationFailure::UsernameEmpty
            | ValidationFailure::UsernameTooShort
            | ValidationFailure::UsernameTooLong
            | ValidationFailure::UsernameInvalidCharacter => Field::Username,
            ValidationFailure::PasswordTooShort
            | ValidationFailure::PasswordMissingUppercase
            | ValidationFailure::PasswordMissingLowercase
            | ValidationFailure::PasswordMissingDigit
            | ValidationFailure::PasswordMissingSpecial => Field::Password,
        }
    }

    /// The human-readable reason, as a string.
    pub fn reason(self) -> (text: String)
        ensures
            text@ == self.reason_text(),
    {
        let text: &str = match self {
            ValidationFailure::EmailEmpty => "Email cannot be empty",
            ValidationFailure::EmailMalformed => "Invalid email format",
            ValidationFailure::UsernameEmpty => "Username cannot be empty",
            ValidationFailure::UsernameTooShort => "Username must be at least 3 characters long",
            ValidationFailure::UsernameTooLong => "Username must be at most 32 characters long",
            ValidationFailure::UsernameInvalidCharacter => "Username can only contain letters, digits and underscores",
            ValidationFailure::PasswordTooShort => "Password must be at least 8 characters long",
            ValidationFailure::PasswordMissingUppercase => "Password must contain at least one uppercase letter",
            ValidationFailure::PasswordMissingLowercase => "Password must contain at least one lowercase letter",
            ValidationFailure::PasswordMissingDigit => "Password must contain at least one digit",
            ValidationFailure::PasswordMissingSpecial => "Password must contain at least one special character",
        };
        String::from_str(text)
    }
}

/// Everything that can make an operation of this library fail.
#[derive(Debug, PartialEq, Eq)]
pub enum AppError {
    /// A credential broke a validation rule.
    ValidationError(ValidationFailure),
    /// Another account already holds the email.
    DuplicateEmail,
    /// Another account already holds the username.
    DuplicateUsername,
    /// The identifier is unknown or the password is wrong; which of the two
    /// is never told.
    AuthenticationError,
    /// The account store failed.
    DatabaseError(String),
    /// The wallet network failed.
    StellarError(String),
    /// A resource of the process failed.
    InternalError(String),
}

/// What an [`AppError`] holds, with its texts as sequences of characters.
pub enum AppErrorView {
    ValidationError(ValidationFailure),
    DuplicateEmail,
    DuplicateUsername,
    AuthenticationError,
    DatabaseError(Seq<char>),
    StellarError(Seq<char>),
    InternalError(Seq<char>),
}

impl View for AppError {
    type V = AppErrorView;

    open spec fn view(&self) -> AppErrorView {
        match *self {
            AppError::ValidationError(failure) => AppErrorView::ValidationError(failure),
            AppError::DuplicateEmail => AppErrorView::DuplicateEmail,
            AppError::DuplicateUsername => AppErrorView::DuplicateUsername,
            AppError::AuthenticationError => AppErrorView::AuthenticationError,
            AppError::DatabaseError(text) => AppErrorView::DatabaseError(text@),
            AppError::StellarError(text) => AppErrorView::StellarError(text@),
            AppError::InternalError(text) => AppErrorView::InternalError(text@),
        }
    }
}

impl AppErrorView {
    /// The line shown for the error: its category, a colon, and the detail.
    pub open spec fn message_text(self) -> Seq<char> {
        match self {
            AppErrorView::ValidationError(failure) => "Validation Error: "@ + failure.reason_text(),
            AppErrorView::DuplicateEmail => "Validation Error: "@ + "Email already exists"@,
            AppErrorView::DuplicateUsername => "Validation Error: "@ + "Username already exists"@,
            AppErrorView::AuthenticationError => "Authentication Error: "@
                + "Invalid email/username or password"@,
            AppErrorView::DatabaseError(text) => "Database Error: "@ + text,
            AppErrorView::StellarError(text) => "Stellar Error: "@ + text,
            AppErrorView::InternalError(text) => "Internal Error: "@ + text,
        }
    }
}

impl Clone for AppError {
    fn clone(&self) -> (copy: Self)
        ensures
            copy == *self,
    {
        match self {
            AppError::ValidationError(failure) => AppError::ValidationError(*failure),
            AppError::DuplicateEmail => AppError::DuplicateEmail,
            AppError::DuplicateUsername => AppError::DuplicateUsername,
            AppError::AuthenticationError => AppError::AuthenticationError,
            AppError::DatabaseError(text) => AppError::DatabaseError(text.clone()),
            AppError::StellarError(text) => AppError::StellarError(text.clone()),
            AppError::InternalError(text) => AppError::InternalError(text.clone()),
        }
    }
}

impl AppError {
    /// The line shown for the error: its category, a colon, and the detail.
    pub fn message(&self) -> (text: String)
        ensures
            text@ == self@.message_text(),
    {
        match self {
            AppError::ValidationError(failure) => {
                let reason = failure.reason();
                String::from_str("Validation Error: ").concat(reason.as_str())
            },
            AppError::DuplicateEmail => String::from_str("Validation Error: ").concat(
                "Email already exists",
            ),
            AppError::DuplicateUsername => String::from_str("Validation Error: ").concat(
                "Username already exists",
            ),
            AppError::AuthenticationError => String::from_str("Authentication Error: ").concat(
                "Invalid email/username or password",
            ),
            AppError::DatabaseError(text) => String::from_str("Database Error: ").concat(
                text.as_str(),
            ),
            AppError::StellarError(text) => String::from_str("Stellar Error: ").concat(
                text.as_str(),
            ),
            AppError::InternalError(text) => String::from_str("Internal Error: ").concat(
                text.as_str(),
            ),
        }
    }
}

} // verus!
