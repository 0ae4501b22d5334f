use crate::errors::{AppError, AppErrorView};
use crate::models::user::{User, UserResponse, UserResponseView, UserView};
use crate::services::registration::{
    conclusion_view, optional_query, unexpected_reply_text,
};
use crate::services::user_store::{StoreQuery, StoreQueryView, StoreReply, StoreReplyView};
use crate::utils::crypto::{hash_accepts, PasswordManager};
use vstd::prelude::*;
use vstd::string::StringExecFns;

verus! {

/// One attempt to log in, as far as it has come. The identifier is looked
/// up as an email first and, only where no account has that email, as a
/// username; the password is then checked against the hash of the account
/// that was found.
#[derive(Debug)]
pub enum Authentication {
    /// The store is asked for the account whose email is the identifier.
    CheckingEmail { identifier: String, password: String },
    /// The store is asked for the account whose username is the identifier.
    CheckingUsername { identifier: String, password: String },
    /// The password was accepted.
    Done { response: UserResponse },
    /// The attempt was turned down, or the store failed.
    Failed { error: AppError },
}

/// What an [`Authentication`] holds, with its texts as sequences of
/// characters.
pub enum AuthenticationView {
    CheckingEmail { identifier: Seq<char>, password: Seq<char> },
    CheckingUsername { identifier: Seq<char>, password: Seq<char> },
    Done { response: UserResponseView },
    Failed { error: AppErrorView },
}

impl View for Authentication {
    type V = AuthenticationView;

    open spec fn view(&self) -> AuthenticationView {
        match *self {
            Authentication::CheckingEmail { identifier, password } => {
                AuthenticationView::CheckingEmail { identifier: identifier@, password: password@ }
            },
            Authentication::CheckingUsername { identifier, password } => {
                AuthenticationView::CheckingUsername {
                    identifier: identifier@,
                    password: password@,
                }
            },
            Authentication::Done { response } => AuthenticationView::Done { response: response@ },
            Authentication::Failed { error } => AuthenticationView::Failed { error: error@ },
        }
    }
}

/// What checking `password` against the account `user` ends in: the
/// account's public part where its hash accepts the password, the generic
/// authentication error where it does not.
pub open spec fn password_check(user: UserView, password: Seq<char>) -> AuthenticationView {
    if hash_accepts(password, user.password_hash) {
        AuthenticationView::Done { response: user.public() }
    } else {
        AuthenticationView::Failed { error: AppErrorView::AuthenticationError }
    }
}

impl AuthenticationView {
    /// Where an attempt starts.
    pub open spec fn begin(identifier: Seq<char>, password: Seq<char>) -> AuthenticationView {
        AuthenticationView::CheckingEmail { identifier, password }
    }

    /// What the attempt waits to hear from the store, if anything.
    pub open spec fn pending(self) -> Option<StoreQueryView> {
        match self {
            AuthenticationView::CheckingEmail { identifier, .. } => Some(
                StoreQueryView::FindByEmail(identifier),
            ),
            AuthenticationView::CheckingUsername { identifier, .. } => Some(
                StoreQueryView::FindByUsername(identifier),
            ),
            _ => None,
        }
    }

    /// Where the attempt stands after the store's `reply`. An identifier
    /// that no account has, as email or as username, and a password that the
    /// account's hash does not accept end in the same error.
    pub open spec fn next(self, reply: StoreReplyView) -> AuthenticationView {
        match self {
            AuthenticationView::CheckingEmail { identifier, password } => match reply {
                StoreReplyView::Found(Some(user)) => password_check(user, password),
                StoreReplyView::Found(None) => AuthenticationView::CheckingUsername {
                    identifier,
                    password,
                },
                StoreReplyView::Failed(error) => AuthenticationView::Failed { error },
                _ => AuthenticationView::Failed {
                    error: AppErrorView::InternalError(unexpected_reply_text()),
                },
            },
            AuthenticationView::CheckingUsername { identifier, password } => match reply {
                StoreReplyView::Found(Some(user)) => password_check(user, password),
                StoreReplyView::Found(None) => AuthenticationView::Failed {
                    error: AppErrorView::AuthenticationError,
                },
                StoreReplyView::Failed(error) => AuthenticationView::Failed { error },
                _ => AuthenticationView::Failed {
                    error: AppErrorView::InternalError(unexpected_reply_text()),
                },
            },
            _ => self,
        }
    }

    /// How the attempt ended, once it has.
    pub open spec fn conclusion(self) -> Option<Result<UserResponseView, AppErrorView>> {
        match self {
            AuthenticationView::Done { response } => Some(Ok(response)),
            AuthenticationView::Failed { error } => Some(Err(error)),
            _ => None,
        }
    }

    /// The most steps that the attempt still takes.
    pub open spec fn remaining(self) -> nat {
        match self {
            AuthenticationView::CheckingEmail { .. } => 2,
            AuthenticationView::CheckingUsername { .. } => 1,
            _ => 0,
        }
    }
}

fn unexpected_reply() -> (error: AppError)
    ensures
        error@ == AppErrorView::InternalError(unexpected_reply_text()),
{
    AppError::InternalError(String::from_str("Unexpected reply from the account store"))
}

impl Authentication {
    /// Checks `password` against the hash of `user`.
    fn check_password(user: User, password: String) -> (state: Authentication)
        ensures
            state@ == password_check(user@, password@),
    {
        if PasswordManager::verify_password(password.as_str(), user.password_hash.as_str()) {
            Authentication::Done { response: UserResponse::from(user) }
        } else {
            Authentication::Failed { error: AppError::AuthenticationError }
        }
    }

    /// Starts an attempt to log in with `identifier`, an email or a
    /// username, and `password`.
    pub fn begin(identifier: String, password: String) -> (state: Authentication)
        ensures
            state@ == AuthenticationView::begin(identifier@, password@),
    {
        Authentication::CheckingEmail { identifier, password }
    }

    /// The query that the store is to answer next, if the attempt waits for
    /// one.
    pub fn pending(&self) -> (query: Option<StoreQuery>)
        ensures
            optional_query(query) == self@.pending(),
    {
        match self {
            Authentication::CheckingEmail { identifier, .. } => Some(
                StoreQuery::FindByEmail(identifier.clone()),
            ),
            Authentication::CheckingUsername { identifier, .. } => Some(
                StoreQuery::FindByUsername(identifier.clone()),
            ),
            _ => None,
        }
    }

    /// Takes the store's reply to the pending query, and checks the
    /// password where the reply holds an account.
    pub fn advance(self, reply: StoreReply) -> (next: Authentication)
        ensures
            next@ == self@.next(reply@),
            self@.pending() is Some ==> next@.remaining() < self@.remaining(),
    {
        match self {
            Authentication::CheckingEmail { identifier, password } => match reply {
                StoreReply::Found(Some(user)) => Authentication::check_password(user, password),
                StoreReply::Found(None) => Authentication::CheckingUsername {
                    identifier,
                    password,
                },
                StoreReply::Failed(error) => Authentication::Failed { error },
                _ => Authentication::Failed { error: unexpected_reply() },
            },
            Authentication::CheckingUsername { identifier, password } => match reply {
                StoreReply::Found(Some(user)) => Authentication::check_password(user, password),
                StoreReply::Found(None) => Authentication::Failed {
                    error: AppError::AuthenticationError,
                },
                StoreReply::Failed(error) => Authentication::Failed { error },
                _ => Authentication::Failed { error: unexpected_reply() },
            },
            other => other,
        }
    }

    /// How the attempt ended, once it has: the public part of the account,
    /// or the error.
    pub fn finish(self) -> (conclusion: Option<Result<UserResponse, AppError>>)
        ensures
            conclusion_view(conclusion) == self@.conclusion(),
    {
        match self {
            Authentication::Done { response } => Some(Ok(response)),
            Authentication::Failed { error } => Some(Err(error)),
            _ => None,
        }
    }
}

} // verus!
