use crate::cli::{confirmation, CLI};
use crate::errors::{AppError, AppErrorView, ValidationFailure};
use crate::models::user::{CreateUserRequest, CreateUserRequestView};
use crate::utils::validation::{email_failure, password_failure, username_failure, Validator};
use vstd::pervasive::unreached;
use vstd::prelude::*;
use vstd::string::StringExecFns;

verus! {

/// What a form tells the user about the answer it just turned down.
#[derive(Clone, Copy, Debug, PartialEq, Eq, Structural)]
pub enum Notice {
    /// No email was typed.
    EmptyEmail,
    /// No username was typed.
    EmptyUsername,
    /// No password was typed.
    EmptyPassword,
    /// Neither an email nor a username was typed.
    EmptyIdentifier,
    /// The answer broke a validation rule.
    Invalid(ValidationFailure),
    /// The password typed the second time is not the one typed first.
    PasswordMismatch,
    /// The answer to a yes-or-no question was neither.
    UnclearAnswer,
}

impl Notice {
    /// The line shown for the notice.
    pub open spec fn text(self) -> Seq<char> {
        match self {
            Notice::EmptyEmail => "Email cannot be empty"@,
            Notice::EmptyUsername => "Username cannot be empty"@,
            Notice::EmptyPassword => "Password cannot be empty"@,
            Notice::EmptyIdentifier => "Email/username cannot be empty"@,
            Notice::Invalid(failure) => AppErrorView::ValidationError(failure).message_text(),
            Notice::PasswordMismatch => "Passwords do not match. Please try again."@,
            Notice::UnclearAnswer => "Please enter 'y' for yes or 'n' for no"@,
        }
    }

    /// The line shown for the notice, as a string.
    pub fn message(self) -> (line: String)
        ensures
            line@ == self.text(),
    {
        match self {
            Notice::EmptyEmail => String::from_str("Email cannot be empty"),
            Notice::EmptyUsername => String::from_str("Username cannot be empty"),
            Notice::EmptyPassword => String::from_str("Password cannot be empty"),
            Notice::EmptyIdentifier => String::from_str("Email/username cannot be empty"),
            Notice::Invalid(failure) => AppError::ValidationError(failure).message(),
            Notice::PasswordMismatch => String::from_str(
                "Passwords do not match. Please try again.",
            ),
            Notice::UnclearAnswer => String::from_str("Please enter 'y' for yes or 'n' for no"),
        }
    }
}

/// The questions that lead to a request for a new account, as far as they
/// have been answered: email, username, password, the password once more,
/// and whether to go ahead. An answer that is turned down is asked for
/// again.
#[derive(Debug)]
pub enum SignUp {
    /// The email is asked for.
    AskEmail,
    /// The username is asked for.
    AskUsername { email: String },
    /// The password is asked for.
    AskPassword { email: String, username: String },
    /// The password is asked for a second time.
    AskPasswordAgain { email: String, username: String, password: String },
    /// The user is asked whether the account is to be created.
    AskConfirmation { request: CreateUserRequest },
    /// The user said yes: the request is ready to be carried out.
    Submit { request: CreateUserRequest },
    /// The user said no.
    Cancelled,
}

/// What a [`SignUp`] holds, with its texts as sequences of characters.
pub enum SignUpView {
    AskEmail,
    AskUsername { email: Seq<char> },
    AskPassword { email: Seq<char>, username: Seq<char> },
    AskPasswordAgain { email: Seq<char>, username: Seq<char>, password: Seq<char> },
    AskConfirmation { request: CreateUserRequestView },
    Submit { request: CreateUserRequestView },
    Cancelled,
}

impl View for SignUp {
    type V = SignUpView;

    open spec fn view(&self) -> SignUpView {
        match *self {
            SignUp::AskEmail => SignUpView::AskEmail,
            SignUp::AskUsername { email } => SignUpView::AskUsername { email: email@ },
            SignUp::AskPassword { email, username } => SignUpView::AskPassword {
                email: email@,
                username: username@,
            },
            SignUp::AskPasswordAgain { email, username, password } => {
                SignUpView::AskPasswordAgain {
                    email: email@,
                    username: username@,
                    password: password@,
                }
            },
            SignUp::AskConfirmation { request } => SignUpView::AskConfirmation {
                request: request@,
            },
            SignUp::Submit { request } => SignUpView::Submit { request: request@ },
            SignUp::Cancelled => SignUpView::Cancelled,
        }
    }
}

impl SignUpView {
    /// Where the form stands after the answer `input`, and what it tells
    /// the user if it turned the answer down.
    pub open spec fn next(self, input: Seq<char>) -> (SignUpView, Option<Notice>) {
        match self {
            SignUpView::AskEmail => if input.len() == 0 {
                (self, Some(Notice::EmptyEmail))
            } else {
                match email_failure(input) {
                    Some(failure) => (self, Some(Notice::Invalid(failure))),
                    None => (SignUpView::AskUsername { email: input }, None),
                }
            },
            SignUpView::AskUsername { email } => if input.len() == 0 {
                (self, Some(Notice::EmptyUsername))
            } else {
                match username_failure(input) {
                    Some(failure) => (self, Some(Notice::Invalid(failure))),
                    None => (SignUpView::AskPassword { email, username: input }, None),
                }
            },
            SignUpView::AskPassword { email, username } => if input.len() == 0 {
                (self, Some(Notice::EmptyPassword))
            } else {
                match password_failure(input) {
                    Some(failure) => (self, Some(Notice::Invalid(failure))),
                    None => (
                        SignUpView::AskPasswordAgain { email, username, password: input },
                        None,
                    ),
                }
            },
            SignUpView::AskPasswordAgain { email, username, password } => if input == password {
                (
                    SignUpView::AskConfirmation {
                        request: CreateUserRequestView { email, username, password },
                    },
                    None,
                )
            } else {
                (SignUpView::AskPassword { email, username }, Some(Notice::PasswordMismatch))
            },
            SignUpView::AskConfirmation { request } => match confirmation(input) {
                Some(true) => (SignUpView::Submit { request }, None),
                Some(false) => (SignUpView::Cancelled, None),
                None => (self, Some(Notice::UnclearAnswer)),
            },
            _ => (self, None),
        }
    }
}

/// The notice for a failed check. A check fails with a validation error
/// only.
fn notice_of(error: AppError) -> (notice: Notice)
    requires
        error is ValidationError,
    ensures
        notice == Notice::Invalid(error->ValidationError_0),
{
    match error {
        AppError::ValidationError(failure) => Notice::Invalid(failure),
        _ => unreached(),
    }
}

impl SignUp {
    /// A form with no answers yet.
    pub fn begin() -> (form: SignUp)
        ensures
            form@ == SignUpView::AskEmail,
    {
        SignUp::AskEmail
    }

    /// Takes the answer to the question that the form stands at.
    pub fn answer(self, input: String) -> (next: (SignUp, Option<Notice>))
        ensures
            (next.0@, next.1) == self@.next(input@),
    {
        match self {
            SignUp::AskEmail => {
                if input.as_str().is_empty() {
                    return (SignUp::AskEmail, Some(Notice::EmptyEmail));
                }
                match Validator::validate_email(input.as_str()) {
                    Err(error) => (SignUp::AskEmail, Some(notice_of(error))),
                    Ok(()) => (SignUp::AskUsername { email: input }, None),
                }
            },
            SignUp::AskUsername { email } => {
                if input.as_str().is_empty() {
                    return (SignUp::AskUsername { email }, Some(Notice::EmptyUsername));
                }
                match Validator::validate_username(input.as_str()) {
                    Err(error) => (SignUp::AskUsername { email }, Some(notice_of(error))),
                    Ok(()) => (SignUp::AskPassword { email, username: input }, None),
                }
            },
            SignUp::AskPassword { email, username } => {
                if input.as_str().is_empty() {
                    return (SignUp::AskPassword { email, username }, Some(Notice::EmptyPassword));
                }
                match Validator::validate_password(input.as_str()) {
                    Err(error) => (SignUp::AskPassword { email, username }, Some(notice_of(error))),
                    Ok(()) => (SignUp::AskPasswordAgain { email, username, password: input }, None),
                }
            },
            SignUp::AskPasswordAgain { email, username, password } => {
                if input == password {
                    (
                        SignUp::AskConfirmation {
                            request: CreateUserRequest { email, username, password },
                        },
                        None,
                    )
                } else {
                    (SignUp::AskPassword { email, username }, Some(Notice::PasswordMismatch))
                }
            },
            SignUp::AskConfirmation { request } => match CLI::confirm_action(input.as_str()) {
                Some(true) => (SignUp::Submit { request }, None),
                Some(false) => (SignUp::Cancelled, None),
                None => (SignUp::AskConfirmation { request }, Some(Notice::UnclearAnswer)),
            },
            other => (other, None),
        }
    }
}

/// The questions that lead to an attempt to log in, as far as they have
/// been answered: the email or username, then the password.
#[derive(Debug)]
pub enum Login {
    /// The email or username is asked for.
    AskIdentifier,
    /// The password is asked for.
    AskPassword { identifier: String },
    /// Both were given: the attempt is ready to be carried out.
    Submit { identifier: String, password: String },
    /// No password was typed: the attempt is given up.
    Abandoned,
}

/// What a [`Login`] holds, with its texts as sequences of characters.
pub enum LoginView {
    AskIdentifier,
    AskPassword { identifier: Seq<char> },
    Submit { identifier: Seq<char>, password: Seq<char> },
    Abandoned,
}

impl View for Login {
    type V = LoginView;

    open spec fn view(&self) -> LoginView {
        match *self {
            Login::AskIdentifier => LoginView::AskIdentifier,
            Login::AskPassword { identifier } => LoginView::AskPassword {
                identifier: identifier@,
            },
            Login::Submit { identifier, password } => LoginView::Submit {
                identifier: identifier@,
                password: password@,
            },
            Login::Abandoned => LoginView::Abandoned,
        }
    }
}

impl LoginView {
    /// Where the form stands after the answer `input`, and what it tells
    /// the user if it turned the answer down. An empty identifier is asked
    /// for again; an empty password ends the attempt.
    pub open spec fn next(self, input: Seq<char>) -> (LoginView, Option<Notice>) {
        match self {
            LoginView::AskIdentifier => if input.len() == 0 {
                (self, Some(Notice::EmptyIdentifier))
            } else {
                (LoginView::AskPassword { identifier: input }, None)
            },
            LoginView::AskPassword { identifier } => if input.len() == 0 {
                (LoginView::Abandoned, Some(Notice::EmptyPassword))
            } else {
                (LoginView::Submit { identifier, password: input }, None)
            },
            _ => (self, None),
        }
    }
}

impl Login {
    /// A form with no answers yet.
    pub fn begin() -> (form: Login)
        ensures
            form@ == LoginView::AskIdentifier,
    {
        Login::AskIdentifier
    }

    /// Takes the answer to the question that the form stands at.
    pub fn answer(self, input: String) -> (next: (Login, Option<Notice>))
        ensures
            (next.0@, next.1) == self@.next(input@),
    {
        match self {
            Login::AskIdentifier => {
                if input.as_str().is_empty() {
                    (Login::AskIdentifier, Some(Notice::EmptyIdentifier))
                } else {
                    (Login::AskPassword { identifier: input }, None)
                }
            },
            Login::AskPassword { identifier } => {
                if input.as_str().is_empty() {
                    (Login::Abandoned, Some(Notice::EmptyPassword))
                } else {
                    (Login::Submit { identifier, password: input }, None)
                }
            },
            other => (other, None),
        }
    }
}

} // verus!
