use vstd::prelude::*;
use vstd::std_specs::convert::FromSpecImpl;

verus! {

/// A point in time (UTC): whole seconds since the Unix epoch and the
/// nanoseconds into that second.
#[derive(Clone, Copy, Debug, PartialEq, Eq, Structural)]
pub struct Timestamp {
    pub seconds: i64,
    pub nanoseconds: u32,
}

/// A stored account. The identifier is the 128-bit value of a UUID.
#[derive(Debug)]
pub struct User {
    pub id: u128,
    pub email: String,
    pub username: String,
    pub password_hash: String,
    pub is_verified: bool,
    pub stellar_public_key: Option<String>,
    pub created_at: Timestamp,
    pub updated_at: Timestamp,
}

/// What a [`User`] holds, with its texts as sequences of characters.
pub struct UserView {
    pub id: u128,
    pub email: Seq<char>,
    pub username: Seq<char>,
    pub password_hash: Seq<char>,
    pub is_verified: bool,
    pub stellar_public_key: Option<Seq<char>>,
    pub created_at: Timestamp,
    pub updated_at: Timestamp,
}

/// The credentials that a new account is made from.
#[derive(Debug)]
pub struct CreateUserRequest {
    pub email: String,
    pub username: String,
    pub password: String,
}

/// What a [`CreateUserRequest`] holds, as sequences of characters.
pub struct CreateUserRequestView {
    pub email: Seq<char>,
    pub username: Seq<char>,
    pub password: Seq<char>,
}

/// The part of an account that leaves the library: everything but the
/// password hash.
#[derive(Debug)]
pub struct UserResponse {
    pub id: u128,
    pub email: String,
    pub username: String,
    pub is_verified: bool,
    pub stellar_public_key: Option<String>,
    pub created_at: Timestamp,
    pub updated_at: Timestamp,
}

/// What a [`UserResponse`] holds, with its texts as sequences of characters.
pub struct UserResponseView {
    pub id: u128,
    pub email: Seq<char>,
    pub username: Seq<char>,
    pub is_verified: bool,
    pub stellar_public_key: Option<Seq<char>>,
    pub created_at: Timestamp,
    pub updated_at: Timestamp,
}

/// The characters of an optional text.
pub open spec fn optional_text(text: Option<String>) -> Option<Seq<char>> {
    match text {
        Some(text) => Some(text@),
        None => None,
    }
}

impl View for User {
    type V = UserView;

    open spec fn view(&self) -> UserView {
        UserView {
            id: self.id,
            email: self.email@,
            username: self.username@,
            password_hash: self.password_hash@,
            is_verified: self.is_verified,
            stellar_public_key: optional_text(self.stellar_public_key),
            created_at: self.created_at,
            updated_at: self.updated_at,
        }
    }
}

impl View for CreateUserRequest {
    type V = CreateUserRequestView;

    open spec fn view(&self) -> CreateUserRequestView {
        CreateUserRequestView {
            email: self.email@,
            username: self.username@,
            password: self.password@,
        }
    }
}

impl View for UserResponse {
    type V = UserResponseView;

    open spec fn view(&self) -> UserResponseView {
        UserResponseView {
            id: self.id,
            email: self.email@,
            username: self.username@,
            is_verified: self.is_verified,
            stellar_public_key: optional_text(self.stellar_public_key),
            created_at: self.created_at,
            updated_at: self.updated_at,
        }
    }
}

impl UserView {
    /// The account as callers may see it: the password hash is left out,
    /// and nothing else.
    pub open spec fn public(self) -> UserResponseView {
        UserResponseView {
            id: self.id,
            email: self.email,
            username: self.username,
            is_verified: self.is_verified,
            stellar_public_key: self.stellar_public_key,
            created_at: self.created_at,
            updated_at: self.updated_at,
        }
    }

    /// The account that a request becomes: unverified, without a wallet key,
    /// created and last updated at the same instant.
    pub open spec fn fresh(
        id: u128,
        request: CreateUserRequestView,
        password_hash: Seq<char>,
        now: Timestamp,
    ) -> UserView {
        UserView {
            id,
            email: request.email,
            username: request.username,
            password_hash,
            is_verified: false,
            stellar_public_key: None,
            created_at: now,
            updated_at: now,
        }
    }
}

/// A copy of an optional text.
fn clone_optional_text(text: &Option<String>) -> (copy: Option<String>)
    ensures
        copy == *text,
{
    match text {
        Some(text) => Some(text.clone()),
        None => None,
    }
}

impl Clone for User {
    fn clone(&self) -> (copy: Self)
        ensures
            copy == *self,
    {
        User {
            id: self.id,
            email: self.email.clone(),
            username: self.username.clone(),
            password_hash: self.password_hash.clone(),
            is_verified: self.is_verified,
            stellar_public_key: clone_optional_text(&self.stellar_public_key),
            created_at: self.created_at,
            updated_at: self.updated_at,
        }
    }
}

impl Clone for CreateUserRequest {
    fn clone(&self) -> (copy: Self)
        ensures
            copy == *self,
    {
        CreateUserRequest {
            email: self.email.clone(),
            username: self.username.clone(),
            password: self.password.clone(),
        }
    }
}

impl Clone for UserResponse {
    fn clone(&self) -> (copy: Self)
        ensures
            copy == *self,
    {
        UserResponse {
            id: self.id,
            email: self.email.clone(),
            username: self.username.clone(),
            is_verified: self.is_verified,
            stellar_public_key: clone_optional_text(&self.stellar_public_key),
            created_at: self.created_at,
            updated_at: self.updated_at,
        }
    }
}

impl User {
    /// Makes the account that `request` asks for, with the given identifier,
    /// password hash and creation time.
    pub fn new(id: u128, request: CreateUserRequest, password_hash: String, now: Timestamp) -> (user:
        User)
        ensures
            user@ == UserView::fresh(id, request@, password_hash@, now),
    {
        User {
            id,
            email: request.email,
            username: request.username,
            password_hash,
            is_verified: false,
            stellar_public_key: None,
            created_at: now,
            updated_at: now,
        }
    }
}

impl From<User> for UserResponse {
    /// Drops the password hash and keeps every other field.
    fn from(user: User) -> (response: UserResponse)
        ensures
            response@ == user@.public(),
    {
        UserResponse {
            id: user.id,
            email: user.email,
            username: user.username,
            is_verified: user.is_verified,
            stellar_public_key: user.stellar_public_key,
            created_at: user.created_at,
            updated_at: user.updated_at,
        }
    }
}

impl FromSpecImpl<User> for UserResponse {
    open spec fn obeys_from_spec() -> bool {
        true
    }

    open spec fn from_spec(user: User) -> UserResponse {
        UserResponse {
            id: user.id,
            email: user.email,
            username: user.username,
            is_verified: user.is_verified,
            stellar_public_key: user.stellar_public_key,
            created_at: user.created_at,
            updated_at: user.updated_at,
        }
    }
}

} // verus!
