use crate::errors::{AppError, AppErrorView};
use crate::models::user::{
    CreateUserRequest, CreateUserRequestView, UserResponse, UserResponseView, UserView,
};
use crate::services::authentication::{Authentication, AuthenticationView};
use crate::services::registration::{
    clock_failed_text, identifier_failed_text, response_view, Registration, RegistrationView,
};
use crate::services::user_store::{
    account_with_email, account_with_id, account_with_username, distinct_accounts, holds_email,
    holds_id, holds_username, identifier_taken_text, insert_rejection, lemma_inserted_is_found,
    lemma_two_distinct_inserts, StoreQuery, StoreReply, UserStore,
};
use crate::utils::crypto::{hash_accepts, hash_header, hash_made_for, hashing_failed_text};
use crate::utils::validation::{
    email_failure, is_username_char, lemma_email_is_no_username, request_failure, splits_email,
    username_failure,
};
use vstd::pervasive::unreached;
use vstd::prelude::*;
use vstd::string::StringExecFns;

verus! {

/// Why no account is made from `request` while `accounts` are stored, if
/// that is so whatever the hashing gives: the request breaks a validation
/// rule, or its email is taken, or its username is taken. The rules are
/// looked at in that order.
pub open spec fn creation_refusal(
    accounts: Seq<UserView>,
    request: CreateUserRequestView,
) -> Option<AppErrorView> {
    match request_failure(request) {
        Some(failure) => Some(AppErrorView::ValidationError(failure)),
        None => if holds_email(accounts, request.email) {
            Some(AppErrorView::DuplicateEmail)
        } else if holds_username(accounts, request.username) {
            Some(AppErrorView::DuplicateUsername)
        } else {
            None
        },
    }
}

/// `user` is an account made from `request` that `accounts` can take: it
/// has the email and username asked for and a hash that accepts the
/// password, is not the password and holds no `@`, is not verified, has no wallet key, was created
/// and updated at one time, and its identifier is new.
pub open spec fn is_created_account(
    accounts: Seq<UserView>,
    request: CreateUserRequestView,
    user: UserView,
) -> bool {
    &&& user == UserView::fresh(user.id, request, user.password_hash, user.created_at)
    &&& hash_made_for(request.password, user.password_hash)
    &&& !holds_id(accounts, user.id)
}

/// The account that `identifier` names: the one with that email, else the
/// one with that username.
pub open spec fn account_named(accounts: Seq<UserView>, identifier: Seq<char>) -> Option<UserView> {
    match account_with_email(accounts, identifier) {
        Some(user) => Some(user),
        None => account_with_username(accounts, identifier),
    }
}

/// What an attempt to log in ends in: the public part of the account that
/// the identifier names, where its hash accepts the password; else one and
/// the same error, whether no account has that name or the password is wrong.
pub open spec fn authentication_outcome(
    accounts: Seq<UserView>,
    identifier: Seq<char>,
    password: Seq<char>,
) -> Result<UserResponseView, AppErrorView> {
    match account_named(accounts, identifier) {
        Some(user) => if hash_accepts(password, user.password_hash) {
            Ok(user.public())
        } else {
            Err(AppErrorView::AuthenticationError)
        },
        None => Err(AppErrorView::AuthenticationError),
    }
}

/// The public part of an optional account.
pub open spec fn public_part(user: Option<UserView>) -> Option<UserResponseView> {
    match user {
        Some(user) => Some(user.public()),
        None => None,
    }
}

/// The view of the result of a lookup.
pub open spec fn lookup_view(result: Result<Option<UserResponse>, AppError>) -> Result<
    Option<UserResponseView>,
    AppErrorView,
> {
    match result {
        Ok(Some(response)) => Ok(Some(response@)),
        Ok(None) => Ok(None),
        Err(error) => Err(error@),
    }
}

/// Email and username of every account pass validation.
pub open spec fn valid_accounts(accounts: Seq<UserView>) -> bool {
    forall|i: int|
        0 <= i < accounts.len() ==> {
            &&& email_failure((#[trigger] accounts[i]).email) is None
            &&& username_failure(accounts[i].username) is None
        }
}

/// An account made from a request is taken by the store that did not
/// refuse the request.
pub proof fn lemma_created_account_is_taken(
    accounts: Seq<UserView>,
    request: CreateUserRequestView,
    user: UserView,
)
    requires
        creation_refusal(accounts, request) is None,
        is_created_account(accounts, request, user),
    ensures
        insert_rejection(accounts, user) is None,
{
}

/// An account that was created is found under the email of its request,
/// with that very email, and under the username of its request; and it can
/// log in with its email or its username and the password of its request.
pub proof fn lemma_created_account_logs_in(
    accounts: Seq<UserView>,
    request: CreateUserRequestView,
    user: UserView,
)
    requires
        distinct_accounts(accounts),
        valid_accounts(accounts),
        creation_refusal(accounts, request) is None,
        is_created_account(accounts, request, user),
    ensures
        user.email == request.email,
        account_with_email(accounts.push(user), request.email) == Some(user),
        account_with_username(accounts.push(user), request.username) == Some(user),
        authentication_outcome(accounts.push(user), request.email, request.password) == Ok::<
            UserResponseView,
            AppErrorView,
        >(user.public()),
        authentication_outcome(accounts.push(user), request.username, request.password) == Ok::<
            UserResponseView,
            AppErrorView,
        >(user.public()),
{
    let after = accounts.push(user);
    lemma_inserted_is_found(accounts, user);
    assert(!holds_email(after, request.username)) by {
        if holds_email(after, request.username) {
            let i = choose|i: int| 0 <= i < after.len() && after[i].email == request.username;
            if i < accounts.len() {
                assert(after[i] == accounts[i]);
                lemma_email_is_no_username(accounts[i].email, request.username);
            } else {
                lemma_email_is_no_username(request.email, request.username);
            }
        }
    }
}

/// The hash of an account that was created is not its username.
pub proof fn lemma_hash_is_not_the_username(
    accounts: Seq<UserView>,
    request: CreateUserRequestView,
    user: UserView,
)
    requires
        request_failure(request) is None,
        is_created_account(accounts, request, user),
    ensures
        user.password_hash != user.username,
{
    reveal_strlit("$argon2id$v=19$m=19456,t=2,p=1$");
    assert(user.password_hash[0] == hash_header()[0]);
    assert(hash_header()[0] == '$');
    if user.password_hash == user.username {
        assert(is_username_char(user.username[0]));
    }
}

/// The hash of an account that was created is not its email.
pub proof fn lemma_hash_is_not_the_email(
    accounts: Seq<UserView>,
    request: CreateUserRequestView,
    user: UserView,
)
    requires
        request_failure(request) is None,
        is_created_account(accounts, request, user),
    ensures
        user.password_hash != user.email,
{
    let at = choose|at: int| splits_email(request.email, at);
    assert(splits_email(request.email, at));
    if user.password_hash == user.email {
        assert(user.password_hash[at] == '@');
    }
}

/// The hash of an account that was created is not the password that it was
/// made from.
pub proof fn lemma_hash_is_not_the_password(
    accounts: Seq<UserView>,
    request: CreateUserRequestView,
    user: UserView,
)
    requires
        is_created_account(accounts, request, user),
    ensures
        user.password_hash != request.password,
{
}

/// A request that passes validation and asks for an email that is taken
/// is refused as a duplicate email.
pub proof fn lemma_taken_email_refuses_creation(
    accounts: Seq<UserView>,
    request: CreateUserRequestView,
)
    requires
        request_failure(request) is None,
        holds_email(accounts, request.email),
    ensures
        creation_refusal(accounts, request) == Some(AppErrorView::DuplicateEmail),
{
}

/// A request that passes validation and asks for a free email and a
/// username that is taken is refused as a duplicate username.
pub proof fn lemma_taken_username_refuses_creation(
    accounts: Seq<UserView>,
    request: CreateUserRequestView,
)
    requires
        request_failure(request) is None,
        !holds_email(accounts, request.email),
        holds_username(accounts, request.username),
    ensures
        creation_refusal(accounts, request) == Some(AppErrorView::DuplicateUsername),
{
}

/// Of two requests for one email, made one after the other, the second is
/// refused as a duplicate email once the first has led to an account.
pub proof fn lemma_same_email_creates_once(
    accounts: Seq<UserView>,
    first: CreateUserRequestView,
    second: CreateUserRequestView,
    user: UserView,
)
    requires
        first.email == second.email,
        request_failure(second) is None,
        is_created_account(accounts, first, user),
    ensures
        creation_refusal(accounts.push(user), second) == Some(AppErrorView::DuplicateEmail),
{
    let after = accounts.push(user);
    assert(after[accounts.len() as int].email == second.email);
}

/// Two requests that pass validation and differ in email and in username,
/// for emails and usernames that are free: after the first has led to an
/// account the second is not refused, and once it has led to an account too,
/// each account is found under its own email and its own username.
pub proof fn lemma_two_creations(
    accounts: Seq<UserView>,
    first: CreateUserRequestView,
    second: CreateUserRequestView,
    one: UserView,
    other: UserView,
)
    requires
        distinct_accounts(accounts),
        creation_refusal(accounts, first) is None,
        creation_refusal(accounts, second) is None,
        first.email != second.email,
        first.username != second.username,
        is_created_account(accounts, first, one),
        is_created_account(accounts.push(one), second, other),
    ensures
        creation_refusal(accounts.push(one), second) is None,
        account_with_email(accounts.push(one).push(other), first.email) == Some(one),
        account_with_email(accounts.push(one).push(other), second.email) == Some(other),
        account_with_username(accounts.push(one).push(other), first.username) == Some(one),
        account_with_username(accounts.push(one).push(other), second.username) == Some(other),
{
    let after = accounts.push(one);
    assert(after[accounts.len() as int] == one);
    assert(!holds_id(accounts, other.id)) by {
        if holds_id(accounts, other.id) {
            let i = choose|i: int| 0 <= i < accounts.len() && accounts[i].id == other.id;
            assert(after[i].id == other.id);
        }
    }
    assert(one.id != other.id);
    lemma_two_distinct_inserts(accounts, one, other);
}

/// A wrong password for an account that exists and any password for a name
/// that no account has are turned down with one and the same error.
pub proof fn lemma_wrong_password_like_unknown_name(
    accounts: Seq<UserView>,
    known: Seq<char>,
    wrong_password: Seq<char>,
    unknown: Seq<char>,
    any_password: Seq<char>,
)
    requires
        account_named(accounts, known) matches Some(user) && !hash_accepts(
            wrong_password,
            user.password_hash,
        ),
        account_named(accounts, unknown) is None,
    ensures
        authentication_outcome(accounts, known, wrong_password) == Err::<
            UserResponseView,
            AppErrorView,
        >(AppErrorView::AuthenticationError),
        authentication_outcome(accounts, unknown, any_password) == authentication_outcome(
            accounts,
            known,
            wrong_password,
        ),
{
}

/// Accounts in memory, with their creation and authentication.
pub struct UserService {
    store: UserStore,
}

impl View for UserService {
    type V = Seq<UserView>;

    closed spec fn view(&self) -> Seq<UserView> {
        self.store@
    }
}

impl UserService {
    #[verifier::type_invariant]
    spec fn well_formed(self) -> bool {
        valid_accounts(self.store@)
    }

    /// What holds of a creation in progress: `state` is what the creation
    /// of an account from `request` has come to, begun with `before` stored
    /// and `now` stored at present.
    spec fn creation_on_track(
        state: RegistrationView,
        before: Seq<UserView>,
        request: CreateUserRequestView,
        now: Seq<UserView>,
    ) -> bool {
        match state {
            RegistrationView::CheckingEmail { request: held } => {
                &&& held == request
                &&& request_failure(request) is None
                &&& now == before
            },
            RegistrationView::CheckingUsername { request: held } => {
                &&& held == request
                &&& request_failure(request) is None
                &&& !holds_email(before, request.email)
                &&& now == before
            },
            RegistrationView::Hashing { .. } => false,
            RegistrationView::ResolvingEmail { .. } => false,
            RegistrationView::ResolvingUsername { .. } => false,
            RegistrationView::Persisting { user } => {
                &&& creation_refusal(before, request) is None
                &&& user == UserView::fresh(user.id, request, user.password_hash, user.created_at)
                &&& hash_made_for(request.password, user.password_hash)
                &&& now == before
            },
            RegistrationView::Done { response } => {
                &&& creation_refusal(before, request) is None
                &&& now.len() > 0
                &&& now == before.push(now.last())
                &&& is_created_account(before, request, now.last())
                &&& response == now.last().public()
            },
            RegistrationView::Failed { error } => {
                &&& now == before
                &&& match creation_refusal(before, request) {
                    Some(refusal) => error == refusal,
                    None => {
                        ||| error == AppErrorView::InternalError(hashing_failed_text())
                        ||| error == AppErrorView::InternalError(identifier_failed_text())
                        ||| error == AppErrorView::InternalError(clock_failed_text())
                        ||| error == AppErrorView::DatabaseError(identifier_taken_text())
                    },
                }
            },
        }
    }

    /// What holds of an attempt to log in that is in progress.
    spec fn authentication_on_track(
        state: AuthenticationView,
        accounts: Seq<UserView>,
        identifier: Seq<char>,
        password: Seq<char>,
    ) -> bool {
        match state {
            AuthenticationView::CheckingEmail { identifier: held, password: secret } => {
                held == identifier && secret == password
            },
            AuthenticationView::CheckingUsername { identifier: held, password: secret } => {
                &&& held == identifier
                &&& secret == password
                &&& account_with_email(accounts, identifier) is None
            },
            AuthenticationView::Done { response } => authentication_outcome(
                accounts,
                identifier,
                password,
            ) == Ok::<UserResponseView, AppErrorView>(response),
            AuthenticationView::Failed { error } => authentication_outcome(
                accounts,
                identifier,
                password,
            ) == Err::<UserResponseView, AppErrorView>(error),
        }
    }

    /// A service without accounts.
    pub fn new() -> (service: UserService)
        ensures
            service@ == Seq::<UserView>::empty(),
    {
        UserService { store: UserStore::new() }
    }

    /// Every stored account has an email and a username that pass
    /// validation, and no two of them share an email, a username or an
    /// identifier.
    pub fn check_accounts(&self)
        ensures
            valid_accounts(self@),
            distinct_accounts(self@),
    {
        proof {
            use_type_invariant(self);
        }
        self.store.check_distinct();
    }

    /// Makes an account from `request`. The request is validated, email
    /// first, then username, then password; then the email and the username
    /// must be free; only then is the password hashed and the account stored.
    /// Whenever no account is made the stored accounts stay as they are. A
    /// request that nothing refuses fails only where the hashing, the drawing
    /// of an identifier or the reading of the clock fails, or where the
    /// identifier drawn is taken.
    pub fn create_user(&mut self, request: CreateUserRequest) -> (result: Result<
        UserResponse,
        AppError,
    >)
        ensures
            final(self)@.len() == old(self)@.len() + if result is Ok {
                1nat
            } else {
                0nat
            },
            match creation_refusal(old(self)@, request@) {
                Some(refusal) => {
                    &&& response_view(result) == Err::<UserResponseView, AppErrorView>(refusal)
                    &&& final(self)@ == old(self)@
                },
                None => match result {
                    Ok(response) => {
                        &&& final(self)@.len() > 0
                        &&& final(self)@ == old(self)@.push(final(self)@.last())
                        &&& is_created_account(old(self)@, request@, final(self)@.last())
                        &&& response@ == final(self)@.last().public()
                    },
                    Err(error) => {
                        &&& final(self)@ == old(self)@
                        &&& {
                            ||| error@ == AppErrorView::InternalError(hashing_failed_text())
                            ||| error@ == AppErrorView::InternalError(identifier_failed_text())
                            ||| error@ == AppErrorView::InternalError(clock_failed_text())
                            ||| error@ == AppErrorView::DatabaseError(identifier_taken_text())
                        }
                    },
                },
            },
    {
        proof {
            use_type_invariant(&*self);
        }
        let ghost before = self@;
        let ghost asked = request@;
        let mut store = UserStore::new();
        std::mem::swap(&mut store, &mut self.store);
        let mut state = Registration::begin(request);
        loop
            invariant
                valid_accounts(store@),
                Self::creation_on_track(state@, before, asked, store@),
            ensures
                valid_accounts(store@),
                Self::creation_on_track(state@, before, asked, store@),
                state@.pending() is None,
            decreases state@.remaining(),
        {
            match state.pending() {
                Some(query) => {
                    let reply = store.answer(query);
                    state = state.advance(reply);
                },
                None => {
                    break ;
                },
            }
        }
        self.store = store;
        match state.finish() {
            Some(result) => result,
            None => unreached(),
        }
    }

    /// Checks `password` for the account that `identifier` names, by email
    /// first and by username second.
    pub fn authenticate_user(&self, identifier: &str, password: &str) -> (result: Result<
        UserResponse,
        AppError,
    >)
        ensures
            response_view(result) == authentication_outcome(self@, identifier@, password@),
    {
        let mut state = Authentication::begin(
            String::from_str(identifier),
            String::from_str(password),
        );
        loop
            invariant
                Self::authentication_on_track(state@, self@, identifier@, password@),
            ensures
                Self::authentication_on_track(state@, self@, identifier@, password@),
                state@.pending() is None,
            decreases state@.remaining(),
        {
            match state.pending() {
                Some(StoreQuery::FindByEmail(email)) => {
                    let found = self.store.find_by_email(email.as_str());
                    state = state.advance(StoreReply::Found(found));
                },
                Some(StoreQuery::FindByUsername(username)) => {
                    let found = self.store.find_by_username(username.as_str());
                    state = state.advance(StoreReply::Found(found));
                },
                _ => {
                    break ;
                },
            }
        }
        match state.finish() {
            Some(result) => result,
            None => unreached(),
        }
    }

    /// The public part of the account with the identifier `user_id`.
    pub fn get_user_by_id(&self, user_id: u128) -> (result: Result<Option<UserResponse>, AppError>)
        ensures
            lookup_view(result) == Ok::<Option<UserResponseView>, AppErrorView>(
                public_part(account_with_id(self@, user_id)),
            ),
    {
        match self.store.find_by_id(user_id) {
            Some(user) => Ok(Some(UserResponse::from(user))),
            None => Ok(None),
        }
    }

    /// The public part of the account with the email `email`.
    pub fn get_user_by_email(&self, email: &str) -> (result: Result<Option<UserResponse>, AppError>)
        ensures
            lookup_view(result) == Ok::<Option<UserResponseView>, AppErrorView>(
                public_part(account_with_email(self@, email@)),
            ),
    {
        match self.store.find_by_email(email) {
            Some(user) => Ok(Some(UserResponse::from(user))),
            None => Ok(None),
        }
    }

    /// The public part of the account with the username `username`.
    pub fn get_user_by_username(&self, username: &str) -> (result: Result<
        Option<UserResponse>,
        AppError,
    >)
        ensures
            lookup_view(result) == Ok::<Option<UserResponseView>, AppErrorView>(
                public_part(account_with_username(self@, username@)),
            ),
    {
        match self.store.find_by_username(username) {
            Some(user) => Ok(Some(UserResponse::from(user))),
            None => Ok(None),
        }
    }

    /// The number of accounts.
    pub fn get_user_count(&self) -> (count: usize)
        ensures
            count == self@.len(),
    {
        self.store.count()
    }
}

} // verus!
