use crate::errors::{AppError, ValidationFailure};
use crate::models::user::{CreateUserRequest, CreateUserRequestView};
use vstd::prelude::*;
use vstd::string::StrSliceExecFns;

verus! {

/// The fewest characters a username may have.
pub const MIN_USERNAME_LENGTH: usize = 3;

/// The most characters a username may have.
pub const MAX_USERNAME_LENGTH: usize = 32;

/// The fewest characters a password may have.
pub const MIN_PASSWORD_LENGTH: usize = 8;

/// `A` to `Z`.
pub open spec fn is_uppercase(c: char) -> bool {
    'A' <= c && c <= 'Z'
}

/// `a` to `z`.
pub open spec fn is_lowercase(c: char) -> bool {
    'a' <= c && c <= 'z'
}

/// `0` to `9`.
pub open spec fn is_digit(c: char) -> bool {
    '0' <= c && c <= '9'
}

/// One of ``!@#$%^&*()_+-=[]{}|;:,.<>?``.
pub open spec fn is_special(c: char) -> bool {
    ||| c == '!'
    ||| c == '@'
    ||| c == '#'
    ||| c == '$'
    ||| c == '%'
    ||| c == '^'
    ||| c == '&'
    ||| c == '*'
    ||| c == '('
    ||| c == ')'
    ||| c == '_'
    ||| c == '+'
    ||| c == '-'
    ||| c == '='
    ||| c == '['
    ||| c == ']'
    ||| c == '{'
    ||| c == '}'
    ||| c == '|'
    ||| c == ';'
    ||| c == ':'
    ||| c == ','
    ||| c == '.'
    ||| c == '<'
    ||| c == '>'
    ||| c == '?'
}

/// A letter, a digit or an underscore.
pub open spec fn is_username_char(c: char) -> bool {
    is_uppercase(c) || is_lowercase(c) || is_digit(c) || c == '_'
}

/// The `@` at index `at` parts `s` into a local part that is not empty and a
/// domain that holds a `.`.
pub open spec fn splits_email(s: Seq<char>, at: int) -> bool {
    &&& 0 < at < s.len()
    &&& s[at] == '@'
    &&& exists|dot: int| at < dot < s.len() && s[dot] == '.'
}

/// `s` has the shape `local@domain`.
pub open spec fn is_email_shaped(s: Seq<char>) -> bool {
    exists|at: int| splits_email(s, at)
}

/// Some character of `s` is an uppercase letter.
pub open spec fn has_uppercase(s: Seq<char>) -> bool {
    exists|i: int| 0 <= i < s.len() && is_uppercase(s[i])
}

/// Some character of `s` is a lowercase letter.
pub open spec fn has_lowercase(s: Seq<char>) -> bool {
    exists|i: int| 0 <= i < s.len() && is_lowercase(s[i])
}

/// Some character of `s` is a digit.
pub open spec fn has_digit(s: Seq<char>) -> bool {
    exists|i: int| 0 <= i < s.len() && is_digit(s[i])
}

/// Some character of `s` is a special character.
pub open spec fn has_special(s: Seq<char>) -> bool {
    exists|i: int| 0 <= i < s.len() && is_special(s[i])
}

/// Every character of `s` may stand in a username.
pub open spec fn only_username_chars(s: Seq<char>) -> bool {
    forall|i: int| 0 <= i < s.len() ==> is_username_char(#[trigger] s[i])
}

/// The first rule that `email` breaks, if any: it is not empty, and it has
/// the shape `local@domain`.
pub open spec fn email_failure(email: Seq<char>) -> Option<ValidationFailure> {
    if email.len() == 0 {
        Some(ValidationFailure::EmailEmpty)
    } else if !is_email_shaped(email) {
        Some(ValidationFailure::EmailMalformed)
    } else {
        None
    }
}

/// The first rule that `username` breaks, if any: it is not empty, it has
/// between 3 and 32 characters, and each is a letter, a digit or `_`.
pub open spec fn username_failure(username: Seq<char>) -> Option<ValidationFailure> {
    if username.len() == 0 {
        Some(ValidationFailure::UsernameEmpty)
    } else if username.len() < MIN_USERNAME_LENGTH {
        Some(ValidationFailure::UsernameTooShort)
    } else if username.len() > MAX_USERNAME_LENGTH {
        Some(ValidationFailure::UsernameTooLong)
    } else if !only_username_chars(username) {
        Some(ValidationFailure::UsernameInvalidCharacter)
    } else {
        None
    }
}

/// The first rule that `password` breaks, if any: it has 8 characters or
/// more, and among them an uppercase letter, a lowercase letter, a digit and
/// a special character.
pub open spec fn password_failure(password: Seq<char>) -> Option<ValidationFailure> {
    if password.len() < MIN_PASSWORD_LENGTH {
        Some(ValidationFailure::PasswordTooShort)
    } else if !has_uppercase(password) {
        Some(ValidationFailure::PasswordMissingUppercase)
    } else if !has_lowercase(password) {
        Some(ValidationFailure::PasswordMissingLowercase)
    } else if !has_digit(password) {
        Some(ValidationFailure::PasswordMissingDigit)
    } else if !has_special(password) {
        Some(ValidationFailure::PasswordMissingSpecial)
    } else {
        None
    }
}

/// `rule` alone where `unmet` holds, nothing where it does not.
pub open spec fn rule_if(unmet: bool, rule: ValidationFailure) -> Seq<ValidationFailure> {
    if unmet {
        seq![rule]
    } else {
        Seq::empty()
    }
}

/// Every rule that `password` breaks: length first, then uppercase letter,
/// lowercase letter, digit and special character.
pub open spec fn unmet_password_rules(password: Seq<char>) -> Seq<ValidationFailure> {
    rule_if(password.len() < MIN_PASSWORD_LENGTH, ValidationFailure::PasswordTooShort) + rule_if(
        !has_uppercase(password),
        ValidationFailure::PasswordMissingUppercase,
    ) + rule_if(!has_lowercase(password), ValidationFailure::PasswordMissingLowercase) + rule_if(
        !has_digit(password),
        ValidationFailure::PasswordMissingDigit,
    ) + rule_if(!has_special(password), ValidationFailure::PasswordMissingSpecial)
}

/// The rule that a password is turned down for is the first of the rules
/// that it breaks, and a password that breaks none is accepted.
pub proof fn lemma_first_unmet_rule(password: Seq<char>)
    ensures
        password_failure(password) == if unmet_password_rules(password).len() == 0 {
            None
        } else {
            Some(unmet_password_rules(password)[0])
        },
{
}

/// The first rule that a request breaks, if any: the email is looked at
/// first, then the username, then the password.
pub open spec fn request_failure(request: CreateUserRequestView) -> Option<ValidationFailure> {
    if email_failure(request.email) is Some {
        email_failure(request.email)
    } else if username_failure(request.username) is Some {
        username_failure(request.username)
    } else {
        password_failure(request.password)
    }
}

/// The result of a check whose first broken rule is `failure`.
pub open spec fn verdict(failure: Option<ValidationFailure>) -> Result<(), AppError> {
    match failure {
        Some(failure) => Err(AppError::ValidationError(failure)),
        None => Ok(()),
    }
}

/// No text is both an email and a username that pass validation: the one
/// holds an `@`, the other does not.
pub proof fn lemma_email_is_no_username(email: Seq<char>, username: Seq<char>)
    requires
        email_failure(email) is None,
        username_failure(username) is None,
    ensures
        email != username,
{
    let at = choose|at: int| splits_email(email, at);
    assert(splits_email(email, at));
    if email == username {
        assert(is_username_char(username[at]));
    }
}

fn char_is_special(c: char) -> (special: bool)
    ensures
        special == is_special(c),
{
    c == '!' || c == '@' || c == '#' || c == '$' || c == '%' || c == '^' || c == '&' || c == '*'
        || c == '(' || c == ')' || c == '_' || c == '+' || c == '-' || c == '=' || c == '['
        || c == ']' || c == '{' || c == '}' || c == '|' || c == ';' || c == ':' || c == ','
        || c == '.' || c == '<' || c == '>' || c == '?'
}

fn char_is_username_char(c: char) -> (allowed: bool)
    ensures
        allowed == is_username_char(c),
{
    (c >= 'A' && c <= 'Z') || (c >= 'a' && c <= 'z') || (c >= '0' && c <= '9') || c == '_'
}

/// The checks that credentials pass before an account is made from them.
pub struct Validator;

impl Validator {
    /// Accepts an email that is not empty and has the shape `local@domain`.
    pub fn validate_email(email: &str) -> (result: Result<(), AppError>)
        ensures
            result == verdict(email_failure(email@)),
    {
        let mut empty = true;
        let mut seen_at = false;
        let mut shaped = false;
        for c in it: email.chars()
            invariant
                it.seq() == email@,
                empty <==> it.index() == 0,
                seen_at <==> exists|at: int| 0 < at < it.index() && email@[at] == '@',
                shaped <==> exists|at: int, dot: int|
                    0 < at < dot < it.index() && email@[at] == '@' && email@[dot] == '.',
        {
            let ghost here = it.index() as int;
            if seen_at && c == '.' {
                shaped = true;
            }
            if !empty && c == '@' {
                proof {
                    assert(0 < here < here + 1 && email@[here] == '@');
                }
                seen_at = true;
            }
            empty = false;
        }
        if empty {
            return Err(AppError::ValidationError(ValidationFailure::EmailEmpty));
        }
        proof {
            if shaped {
                let (at, dot) = choose|at: int, dot: int|
                    0 < at < dot < email@.len() && email@[at] == '@' && email@[dot] == '.';
                assert(splits_email(email@, at));
            }
            if is_email_shaped(email@) {
                let at = choose|at: int| splits_email(email@, at);
                let dot = choose|dot: int| at < dot < email@.len() && email@[dot] == '.';
                assert(0 < at < dot < email@.len() && email@[at] == '@' && email@[dot] == '.');
            }
        }
        if !shaped {
            return Err(AppError::ValidationError(ValidationFailure::EmailMalformed));
        }
        Ok(())
    }

    /// Accepts a username of 3 to 32 characters, each a letter, a digit or
    /// an underscore.
    pub fn validate_username(username: &str) -> (result: Result<(), AppError>)
        ensures
            result == verdict(username_failure(username@)),
    {
        let length = username.unicode_len();
        if length == 0 {
            return Err(AppError::ValidationError(ValidationFailure::UsernameEmpty));
        }
        if length < MIN_USERNAME_LENGTH {
            return Err(AppError::ValidationError(ValidationFailure::UsernameTooShort));
        }
        if length > MAX_USERNAME_LENGTH {
            return Err(AppError::ValidationError(ValidationFailure::UsernameTooLong));
        }
        let mut allowed = true;
        for c in it: username.chars()
            invariant
                it.seq() == username@,
                allowed <==> forall|i: int|
                    0 <= i < it.index() ==> is_username_char(#[trigger] username@[i]),
        {
            if !char_is_username_char(c) {
                allowed = false;
            }
        }
        if !allowed {
            return Err(AppError::ValidationError(ValidationFailure::UsernameInvalidCharacter));
        }
        Ok(())
    }

    /// Lists every rule that `password` breaks: length first, then
    /// uppercase letter, lowercase letter, digit and special character.
    pub fn password_failures(password: &str) -> (failures: Vec<ValidationFailure>)
        ensures
            failures@ == unmet_password_rules(password@),
    {
        let length = password.unicode_len();
        let mut uppercase = false;
        let mut lowercase = false;
        let mut digit = false;
        let mut special = false;
        for c in it: password.chars()
            invariant
                it.seq() == password@,
                uppercase <==> exists|i: int| 0 <= i < it.index() && is_uppercase(password@[i]),
                lowercase <==> exists|i: int| 0 <= i < it.index() && is_lowercase(password@[i]),
                digit <==> exists|i: int| 0 <= i < it.index() && is_digit(password@[i]),
                special <==> exists|i: int| 0 <= i < it.index() && is_special(password@[i]),
        {
            let ghost here = it.index() as int;
            if c >= 'A' && c <= 'Z' {
                assert(is_uppercase(password@[here]));
                uppercase = true;
            }
            if c >= 'a' && c <= 'z' {
                assert(is_lowercase(password@[here]));
                lowercase = true;
            }
            if c >= '0' && c <= '9' {
                assert(is_digit(password@[here]));
                digit = true;
            }
            if char_is_special(c) {
                assert(is_special(password@[here]));
                special = true;
            }
        }
        let mut failures: Vec<ValidationFailure> = Vec::new();
        if length < MIN_PASSWORD_LENGTH {
            failures.push(ValidationFailure::PasswordTooShort);
        }
        if !uppercase {
            failures.push(ValidationFailure::PasswordMissingUppercase);
        }
        if !lowercase {
            failures.push(ValidationFailure::PasswordMissingLowercase);
        }
        if !digit {
            failures.push(ValidationFailure::PasswordMissingDigit);
        }
        if !special {
            failures.push(ValidationFailure::PasswordMissingSpecial);
        }
        assert(failures@ =~= unmet_password_rules(password@));
        failures
    }

    /// Accepts a password of 8 characters or more that holds an uppercase
    /// letter, a lowercase letter, a digit and a special character, and
    /// turns any other down for the first of these rules that it breaks.
    pub fn validate_password(password: &str) -> (result: Result<(), AppError>)
        ensures
            result == verdict(password_failure(password@)),
    {
        let failures = Validator::password_failures(password);
        proof {
            lemma_first_unmet_rule(password@);
        }
        if failures.len() == 0 {
            Ok(())
        } else {
            Err(AppError::ValidationError(failures[0]))
        }
    }

    /// Checks the email, then the username, then the password, and reports
    /// the first rule that is broken.
    pub fn validate_request(request: &CreateUserRequest) -> (result: Result<(), AppError>)
        ensures
            result == verdict(request_failure(request@)),
    {
        match Validator::validate_email(request.email.as_str()) {
            Err(error) => return Err(error),
            Ok(()) => {},
        }
        match Validator::validate_username(request.username.as_str()) {
            Err(error) => return Err(error),
            Ok(()) => {},
        }
        Validator::validate_password(request.password.as_str())
    }
}

} // verus!
