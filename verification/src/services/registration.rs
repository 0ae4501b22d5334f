use crate::errors::{AppError, AppErrorView};
use crate::models::user::{
    CreateUserRequest, CreateUserRequestView, Timestamp, User, UserResponse, UserResponseView,
    UserView,
};
use crate::services::user_store::{
    identifier_taken_text, StoreQuery, StoreQueryView, StoreReply, StoreReplyView,
};
use crate::utils::crypto::{hash_made_for, hashing_failed_text, PasswordManager};
use crate::utils::system::{current_time, random_user_id};
use crate::utils::validation::{request_failure, Validator};
use vstd::prelude::*;
use vstd::string::StringExecFns;

verus! {

/// The creation of one account, as far as it has come. A request is
/// validated when the creation begins; then the store is asked for the email
/// and for the username; then the password is hashed; then the store is
/// asked to add the account. Where the store turns the account down as a
/// duplicate without telling of what, it is asked again for the email and
/// for the username. Whoever owns the store carries the queries to it and the
/// replies back.
#[derive(Debug)]
pub enum Registration {
    /// The store is asked whether the email is taken.
    CheckingEmail { request: CreateUserRequest },
    /// The store is asked whether the username is taken.
    CheckingUsername { request: CreateUserRequest },
    /// Email and username are free: the password is to be hashed.
    Hashing { request: CreateUserRequest },
    /// The store is asked to add the account.
    Persisting { user: User },
    /// The account was turned down as a duplicate: the store is asked
    /// whether its email is taken.
    ResolvingEmail { user: User },
    /// The email is not taken: the store is asked whether the username is.
    ResolvingUsername { user: User },
    /// The account was added.
    Done { response: UserResponse },
    /// The creation was given up.
    Failed { error: AppError },
}

/// What a [`Registration`] holds, with its texts as sequences of characters.
pub enum RegistrationView {
    CheckingEmail { request: CreateUserRequestView },
    CheckingUsername { request: CreateUserRequestView },
    Hashing { request: CreateUserRequestView },
    Persisting { user: UserView },
    ResolvingEmail { user: UserView },
    ResolvingUsername { user: UserView },
    Done { response: UserResponseView },
    Failed { error: AppErrorView },
}

impl View for Registration {
    type V = RegistrationView;

    open spec fn view(&self) -> RegistrationView {
        match *self {
            Registration::CheckingEmail { request } => RegistrationView::CheckingEmail {
                request: request@,
            },
            Registration::CheckingUsername { request } => RegistrationView::CheckingUsername {
                request: request@,
            },
            Registration::Hashing { request } => RegistrationView::Hashing { request: request@ },
            Registration::Persisting { user } => RegistrationView::Persisting { user: user@ },
            Registration::ResolvingEmail { user } => RegistrationView::ResolvingEmail {
                user: user@,
            },
            Registration::ResolvingUsername { user } => RegistrationView::ResolvingUsername {
                user: user@,
            },
            Registration::Done { response } => RegistrationView::Done { response: response@ },
            Registration::Failed { error } => RegistrationView::Failed { error: error@ },
        }
    }
}

/// The text of the error for a reply that answers no pending query.
pub open spec fn unexpected_reply_text() -> Seq<char> {
    "Unexpected reply from the account store"@
}

/// The text of the error for an identifier that could not be drawn.
pub open spec fn identifier_failed_text() -> Seq<char> {
    "Failed to generate identifier"@
}

/// The text of the error for a clock that could not be read.
pub open spec fn clock_failed_text() -> Seq<char> {
    "Failed to read the clock"@
}

/// The view of the result of a hashing.
pub open spec fn hashing_view(hashed: Result<String, AppError>) -> Result<Seq<char>, AppErrorView> {
    match hashed {
        Ok(hash) => Ok(hash@),
        Err(error) => Err(error@),
    }
}

/// The view of the result of a creation or of an authentication.
pub open spec fn response_view(result: Result<UserResponse, AppError>) -> Result<
    UserResponseView,
    AppErrorView,
> {
    match result {
        Ok(response) => Ok(response@),
        Err(error) => Err(error@),
    }
}

/// The view of an optional result.
pub open spec fn conclusion_view(conclusion: Option<Result<UserResponse, AppError>>) -> Option<
    Result<UserResponseView, AppErrorView>,
> {
    match conclusion {
        Some(result) => Some(response_view(result)),
        None => None,
    }
}

/// The view of an optional query.
pub open spec fn optional_query(query: Option<StoreQuery>) -> Option<StoreQueryView> {
    match query {
        Some(query) => Some(query@),
        None => None,
    }
}

impl RegistrationView {
    /// Where the creation of an account from `request` starts: a request
    /// that breaks a validation rule fails at once with that rule.
    pub open spec fn begin(request: CreateUserRequestView) -> RegistrationView {
        match request_failure(request) {
            Some(failure) => RegistrationView::Failed {
                error: AppErrorView::ValidationError(failure),
            },
            None => RegistrationView::CheckingEmail { request },
        }
    }

    /// What the creation waits to hear from the store, if anything.
    pub open spec fn pending(self) -> Option<StoreQueryView> {
        match self {
            RegistrationView::CheckingEmail { request } => Some(
                StoreQueryView::FindByEmail(request.email),
            ),
            RegistrationView::CheckingUsername { request } => Some(
                StoreQueryView::FindByUsername(request.username),
            ),
            RegistrationView::Persisting { user } => Some(StoreQueryView::Insert(user)),
            RegistrationView::ResolvingEmail { user } => Some(
                StoreQueryView::FindByEmail(user.email),
            ),
            RegistrationView::ResolvingUsername { user } => Some(
                StoreQueryView::FindByUsername(user.username),
            ),
            _ => None,
        }
    }

    /// Where the creation stands after the store's `reply`. A taken email or
    /// username ends it with the matching duplicate error, a failure of the
    /// store with that failure, a reply of the wrong kind with an internal
    /// error. An account turned down without a word of what it doubles is
    /// looked up again: the email first, then the username; where neither is
    /// taken it was the identifier. Without a pending query the reply changes
    /// nothing.
    pub open spec fn next(self, reply: StoreReplyView) -> RegistrationView {
        match self {
            RegistrationView::CheckingEmail { request } => match reply {
                StoreReplyView::Found(Some(_)) => RegistrationView::Failed {
                    error: AppErrorView::DuplicateEmail,
                },
                StoreReplyView::Found(None) => RegistrationView::CheckingUsername { request },
                StoreReplyView::Failed(error) => RegistrationView::Failed { error },
                _ => RegistrationView::Failed {
                    error: AppErrorView::InternalError(unexpected_reply_text()),
                },
            },
            RegistrationView::CheckingUsername { request } => match reply {
                StoreReplyView::Found(Some(_)) => RegistrationView::Failed {
                    error: AppErrorView::DuplicateUsername,
                },
                StoreReplyView::Found(None) => RegistrationView::Hashing { request },
                StoreReplyView::Failed(error) => RegistrationView::Failed { error },
                _ => RegistrationView::Failed {
                    error: AppErrorView::InternalError(unexpected_reply_text()),
                },
            },
            RegistrationView::Persisting { user } => match reply {
                StoreReplyView::Inserted => RegistrationView::Done { response: user.public() },
                StoreReplyView::Conflict => RegistrationView::ResolvingEmail { user },
                StoreReplyView::Failed(error) => RegistrationView::Failed { error },
                StoreReplyView::Found(_) => RegistrationView::Failed {
                    error: AppErrorView::InternalError(unexpected_reply_text()),
                },
            },
            RegistrationView::ResolvingEmail { user } => match reply {
                StoreReplyView::Found(Some(_)) => RegistrationView::Failed {
                    error: AppErrorView::DuplicateEmail,
                },
                StoreReplyView::Found(None) => RegistrationView::ResolvingUsername { user },
                StoreReplyView::Failed(error) => RegistrationView::Failed { error },
                _ => RegistrationView::Failed {
                    error: AppErrorView::InternalError(unexpected_reply_text()),
                },
            },
            RegistrationView::ResolvingUsername { user } => match reply {
                StoreReplyView::Found(Some(_)) => RegistrationView::Failed {
                    error: AppErrorView::DuplicateUsername,
                },
                StoreReplyView::Found(None) => RegistrationView::Failed {
                    error: AppErrorView::DatabaseError(identifier_taken_text()),
                },
                StoreReplyView::Failed(error) => RegistrationView::Failed { error },
                _ => RegistrationView::Failed {
                    error: AppErrorView::InternalError(unexpected_reply_text()),
                },
            },
            _ => self,
        }
    }

    /// Where a creation that is hashing stands once the hashing gave
    /// `hashed`, the drawing of an identifier `id` and the reading of the
    /// clock `now`: the account is ready to be added; or the creation failed
    /// as the hashing did, or else for want of an identifier, or else for want
    /// of the time. In any other state nothing changes.
    pub open spec fn hashed(
        self,
        hashed: Result<Seq<char>, AppErrorView>,
        id: Option<u128>,
        now: Option<Timestamp>,
    ) -> RegistrationView {
        match self {
            RegistrationView::Hashing { request } => match hashed {
                Err(error) => RegistrationView::Failed { error },
                Ok(hash) => match id {
                    None => RegistrationView::Failed {
                        error: AppErrorView::InternalError(identifier_failed_text()),
                    },
                    Some(id) => match now {
                        None => RegistrationView::Failed {
                            error: AppErrorView::InternalError(clock_failed_text()),
                        },
                        Some(now) => RegistrationView::Persisting {
                            user: UserView::fresh(id, request, hash, now),
                        },
                    },
                },
            },
            _ => self,
        }
    }

    /// What is true of the state that follows a hashing, whatever hash,
    /// identifier and time were drawn: the account to add has the email and
    /// username asked for and a hash that accepts its password, is not that
    /// password and holds no `@`, is not verified, has no wallet key, and was created and
    /// updated at one time; or the creation failed because the hashing did, or
    /// because no identifier could be drawn, or because the clock could not be
    /// read.
    pub open spec fn follows_hashing(self, after: RegistrationView) -> bool {
        match self {
            RegistrationView::Hashing { request } => match after {
                RegistrationView::Persisting { user } => {
                    &&& user == UserView::fresh(
                        user.id,
                        request,
                        user.password_hash,
                        user.created_at,
                    )
                    &&& hash_made_for(request.password, user.password_hash)
                },
                RegistrationView::Failed { error } => {
                    ||| error == AppErrorView::InternalError(hashing_failed_text())
                    ||| error == AppErrorView::InternalError(identifier_failed_text())
                    ||| error == AppErrorView::InternalError(clock_failed_text())
                },
                _ => false,
            },
            _ => after == self,
        }
    }

    /// How the creation ended, once it has.
    pub open spec fn conclusion(self) -> Option<Result<UserResponseView, AppErrorView>> {
        match self {
            RegistrationView::Done { response } => Some(Ok(response)),
            RegistrationView::Failed { error } => Some(Err(error)),
            _ => None,
        }
    }

    /// The most steps that the creation still takes.
    pub open spec fn remaining(self) -> nat {
        match self {
            RegistrationView::CheckingEmail { .. } => 6,
            RegistrationView::CheckingUsername { .. } => 5,
            RegistrationView::Hashing { .. } => 4,
            RegistrationView::Persisting { .. } => 3,
            RegistrationView::ResolvingEmail { .. } => 2,
            RegistrationView::ResolvingUsername { .. } => 1,
            _ => 0,
        }
    }
}

fn unexpected_reply() -> (error: AppError)
    ensures
        error@ == AppErrorView::InternalError(unexpected_reply_text()),
{
    AppError::InternalError(String::from_str("Unexpected reply from the account store"))
}

impl Registration {
    /// Starts the creation of an account: validates `request`, the email
    /// first, then the username, then the password.
    pub fn begin(request: CreateUserRequest) -> (state: Registration)
        ensures
            state@ == RegistrationView::begin(request@),
    {
        match Validator::validate_request(&request) {
            Err(error) => Registration::Failed { error },
            Ok(()) => Registration::CheckingEmail { request },
        }
    }

    /// The query that the store is to answer next, if the creation waits
    /// for one.
    pub fn pending(&self) -> (query: Option<StoreQuery>)
        ensures
            optional_query(query) == self@.pending(),
    {
        match self {
            Registration::CheckingEmail { request } => Some(
                StoreQuery::FindByEmail(request.email.clone()),
            ),
            Registration::CheckingUsername { request } => Some(
                StoreQuery::FindByUsername(request.username.clone()),
            ),
            Registration::Persisting { user } => Some(StoreQuery::Insert(user.clone())),
            Registration::ResolvingEmail { user } => Some(
                StoreQuery::FindByEmail(user.email.clone()),
            ),
            Registration::ResolvingUsername { user } => Some(
                StoreQuery::FindByUsername(user.username.clone()),
            ),
            _ => None,
        }
    }

    /// Takes the store's reply to the pending query. No password is hashed
    /// here: where email and username are free the state becomes `Hashing`.
    pub fn step(self, reply: StoreReply) -> (next: Registration)
        ensures
            next@ == self@.next(reply@),
    {
        match self {
            Registration::CheckingEmail { request } => match reply {
                StoreReply::Found(Some(_)) => Registration::Failed {
                    error: AppError::DuplicateEmail,
                },
                StoreReply::Found(None) => Registration::CheckingUsername { request },
                StoreReply::Failed(error) => Registration::Failed { error },
                _ => Registration::Failed { error: unexpected_reply() },
            },
            Registration::CheckingUsername { request } => match reply {
                StoreReply::Found(Some(_)) => Registration::Failed {
                    error: AppError::DuplicateUsername,
                },
                StoreReply::Found(None) => Registration::Hashing { request },
                StoreReply::Failed(error) => Registration::Failed { error },
                _ => Registration::Failed { error: unexpected_reply() },
            },
            Registration::Persisting { user } => match reply {
                StoreReply::Inserted => Registration::Done { response: UserResponse::from(user) },
                StoreReply::Conflict => Registration::ResolvingEmail { user },
                StoreReply::Failed(error) => Registration::Failed { error },
                StoreReply::Found(_) => Registration::Failed { error: unexpected_reply() },
            },
            Registration::ResolvingEmail { user } => match reply {
                StoreReply::Found(Some(_)) => Registration::Failed {
                    error: AppError::DuplicateEmail,
                },
                StoreReply::Found(None) => Registration::ResolvingUsername { user },
                StoreReply::Failed(error) => Registration::Failed { error },
                _ => Registration::Failed { error: unexpected_reply() },
            },
            Registration::ResolvingUsername { user } => match reply {
                StoreReply::Found(Some(_)) => Registration::Failed {
                    error: AppError::DuplicateUsername,
                },
                StoreReply::Found(None) => Registration::Failed {
                    error: AppError::DatabaseError(String::from_str("User already exists")),
                },
                StoreReply::Failed(error) => Registration::Failed { error },
                _ => Registration::Failed { error: unexpected_reply() },
            },
            other => other,
        }
    }

    /// Leaves `Hashing` with what the caller brings: the outcome of a
    /// hashing, of the drawing of an identifier and of the reading of the
    /// clock.
    pub fn hashed(
        self,
        hashed: Result<String, AppError>,
        id: Option<u128>,
        now: Option<Timestamp>,
    ) -> (next: Registration)
        ensures
            next@ == self@.hashed(hashing_view(hashed), id, now),
    {
        match self {
            Registration::Hashing { request } => match hashed {
                Err(error) => Registration::Failed { error },
                Ok(hash) => match id {
                    None => Registration::Failed {
                        error: AppError::InternalError(
                            String::from_str("Failed to generate identifier"),
                        ),
                    },
                    Some(id) => match now {
                        None => Registration::Failed {
                            error: AppError::InternalError(
                                String::from_str("Failed to read the clock"),
                            ),
                        },
                        Some(now) => Registration::Persisting {
                            user: User::new(id, request, hash, now),
                        },
                    },
                },
            },
            other => other,
        }
    }

    /// Leaves `Hashing`: hashes the password under a fresh salt and, where
    /// that worked, draws a random identifier and reads the clock.
    pub fn hash(self) -> (next: Registration)
        ensures
            self@.follows_hashing(next@),
    {
        match self {
            Registration::Hashing { request } => {
                let hashed = PasswordManager::hash_password(request.password.as_str());
                let id = if hashed.is_ok() {
                    random_user_id()
                } else {
                    None
                };
                let now = if id.is_some() {
                    current_time()
                } else {
                    None
                };
                Registration::Hashing { request }.hashed(hashed, id, now)
            },
            other => other,
        }
    }

    /// Takes the store's reply to the pending query and, where that frees
    /// the way, hashes the password at once. The state that comes back is
    /// never `Hashing`, and it is closer to the end than the one before.
    pub fn advance(self, reply: StoreReply) -> (next: Registration)
        ensures
            self@.next(reply@).follows_hashing(next@),
            !(next@ is Hashing),
            self@.pending() is Some ==> next@.remaining() < self@.remaining(),
    {
        self.step(reply).hash()
    }

    /// How the creation ended, once it has: the public part of the new
    /// account, or the error.
    pub fn finish(self) -> (conclusion: Option<Result<UserResponse, AppError>>)
        ensures
            conclusion_view(conclusion) == self@.conclusion(),
    {
        match self {
            Registration::Done { response } => Some(Ok(response)),
            Registration::Failed { error } => Some(Err(error)),
            _ => None,
        }
    }
}

} // verus!
