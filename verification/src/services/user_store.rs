use crate::errors::{AppError, AppErrorView};
use crate::models::user::{User, UserView};
use vstd::prelude::*;
use vstd::string::StringExecFns;

verus! {

/// Some account in `accounts` has the email `email`.
pub open spec fn holds_email(accounts: Seq<UserView>, email: Seq<char>) -> bool {
    exists|i: int| 0 <= i < accounts.len() && accounts[i].email == email
}

/// Some account in `accounts` has the username `username`.
pub open spec fn holds_username(accounts: Seq<UserView>, username: Seq<char>) -> bool {
    exists|i: int| 0 <= i < accounts.len() && accounts[i].username == username
}

/// Some account in `accounts` has the identifier `id`.
pub open spec fn holds_id(accounts: Seq<UserView>, id: u128) -> bool {
    exists|i: int| 0 <= i < accounts.len() && accounts[i].id == id
}

/// No two accounts share an email, a username or an identifier.
pub open spec fn distinct_accounts(accounts: Seq<UserView>) -> bool {
    forall|i: int, j: int|
        #![trigger accounts[i], accounts[j]]
        0 <= i < j < accounts.len() ==> {
            &&& accounts[i].email != accounts[j].email
            &&& accounts[i].username != accounts[j].username
            &&& accounts[i].id != accounts[j].id
        }
}

/// The account with the email `email`, if there is one.
pub open spec fn account_with_email(accounts: Seq<UserView>, email: Seq<char>) -> Option<UserView> {
    if holds_email(accounts, email) {
        Some(accounts[choose|i: int| 0 <= i < accounts.len() && accounts[i].email == email])
    } else {
        None
    }
}

/// The account with the username `username`, if there is one.
pub open spec fn account_with_username(accounts: Seq<UserView>, username: Seq<char>) -> Option<
    UserView,
> {
    if holds_username(accounts, username) {
        Some(accounts[choose|i: int| 0 <= i < accounts.len() && accounts[i].username == username])
    } else {
        None
    }
}

/// The account with the identifier `id`, if there is one.
pub open spec fn account_with_id(accounts: Seq<UserView>, id: u128) -> Option<UserView> {
    if holds_id(accounts, id) {
        Some(accounts[choose|i: int| 0 <= i < accounts.len() && accounts[i].id == id])
    } else {
        None
    }
}

/// The text of the error for an identifier that is already taken.
pub open spec fn identifier_taken_text() -> Seq<char> {
    "User already exists"@
}

/// Why `accounts` refuses `user`, if it does: its email is taken, else its
/// username is taken, else its identifier is taken.
pub open spec fn insert_rejection(accounts: Seq<UserView>, user: UserView) -> Option<AppErrorView> {
    if holds_email(accounts, user.email) {
        Some(AppErrorView::DuplicateEmail)
    } else if holds_username(accounts, user.username) {
        Some(AppErrorView::DuplicateUsername)
    } else if holds_id(accounts, user.id) {
        Some(AppErrorView::DatabaseError(identifier_taken_text()))
    } else {
        None
    }
}

/// The accounts after `user` was offered: `user` is appended unless it is
/// refused.
pub open spec fn after_insert(accounts: Seq<UserView>, user: UserView) -> Seq<UserView> {
    if insert_rejection(accounts, user) is None {
        accounts.push(user)
    } else {
        accounts
    }
}

/// The view of an optional account.
pub open spec fn optional_account(user: Option<User>) -> Option<UserView> {
    match user {
        Some(user) => Some(user@),
        None => None,
    }
}

/// The accounts after each of `offered` was offered in turn.
pub open spec fn after_all(accounts: Seq<UserView>, offered: Seq<UserView>) -> Seq<UserView>
    decreases offered.len(),
{
    if offered.len() == 0 {
        accounts
    } else {
        after_insert(after_all(accounts, offered.drop_last()), offered.last())
    }
}

/// How many of `offered`, offered in turn, were taken.
pub open spec fn accepted_count(accounts: Seq<UserView>, offered: Seq<UserView>) -> nat
    decreases offered.len(),
{
    if offered.len() == 0 {
        0
    } else {
        let earlier = accepted_count(accounts, offered.drop_last());
        if insert_rejection(after_all(accounts, offered.drop_last()), offered.last()) is None {
            earlier + 1
        } else {
            earlier
        }
    }
}

/// Among distinct accounts an email names one account only: the account at
/// any index is the one found by its email, by its username and by its
/// identifier.
pub proof fn lemma_found_is_unique(accounts: Seq<UserView>, i: int)
    requires
        distinct_accounts(accounts),
        0 <= i < accounts.len(),
    ensures
        account_with_email(accounts, accounts[i].email) == Some(accounts[i]),
        account_with_username(accounts, accounts[i].username) == Some(accounts[i]),
        account_with_id(accounts, accounts[i].id) == Some(accounts[i]),
{
    let by_email = choose|j: int| 0 <= j < accounts.len() && accounts[j].email == accounts[i].email;
    assert(by_email == i) by {
        if by_email < i {
            assert(accounts[by_email].email != accounts[i].email);
        } else if i < by_email {
            assert(accounts[i].email != accounts[by_email].email);
        }
    }
    let by_username = choose|j: int|
        0 <= j < accounts.len() && accounts[j].username == accounts[i].username;
    assert(by_username == i) by {
        if by_username < i {
            assert(accounts[by_username].username != accounts[i].username);
        } else if i < by_username {
            assert(accounts[i].username != accounts[by_username].username);
        }
    }
    let by_id = choose|j: int| 0 <= j < accounts.len() && accounts[j].id == accounts[i].id;
    assert(by_id == i) by {
        if by_id < i {
            assert(accounts[by_id].id != accounts[i].id);
        } else if i < by_id {
            assert(accounts[i].id != accounts[by_id].id);
        }
    }
}

/// Offering an account keeps the accounts distinct, whether it is taken or
/// refused.
pub proof fn lemma_insert_keeps_distinct(accounts: Seq<UserView>, user: UserView)
    requires
        distinct_accounts(accounts),
    ensures
        distinct_accounts(after_insert(accounts, user)),
{
    if insert_rejection(accounts, user) is None {
        let after = accounts.push(user);
        assert forall|i: int, j: int| 0 <= i < j < after.len() implies {
            &&& after[i].email != after[j].email
            &&& after[i].username != after[j].username
            &&& after[i].id != after[j].id
        } by {
            if j < accounts.len() {
                assert(after[i] == accounts[i] && after[j] == accounts[j]);
            } else {
                assert(after[i] == accounts[i] && after[j] == user);
            }
        }
    }
}

/// An account that was taken is found again under its email, its username
/// and its identifier, exactly as it was handed in.
pub proof fn lemma_inserted_is_found(accounts: Seq<UserView>, user: UserView)
    requires
        distinct_accounts(accounts),
        insert_rejection(accounts, user) is None,
    ensures
        account_with_email(after_insert(accounts, user), user.email) == Some(user),
        account_with_username(after_insert(accounts, user), user.username) == Some(user),
        account_with_id(after_insert(accounts, user), user.id) == Some(user),
{
    let after = accounts.push(user);
    lemma_insert_keeps_distinct(accounts, user);
    assert(after[accounts.len() as int] == user);
    lemma_found_is_unique(after, accounts.len() as int);
}

/// Offering an account, taken or not, leaves every account that was there
/// before to be found as before, under its email, its username and its
/// identifier.
pub proof fn lemma_insert_keeps_found(accounts: Seq<UserView>, user: UserView, i: int)
    requires
        distinct_accounts(accounts),
        0 <= i < accounts.len(),
    ensures
        account_with_email(after_insert(accounts, user), accounts[i].email) == Some(accounts[i]),
        account_with_username(after_insert(accounts, user), accounts[i].username) == Some(
            accounts[i],
        ),
        account_with_id(after_insert(accounts, user), accounts[i].id) == Some(accounts[i]),
{
    let after = after_insert(accounts, user);
    lemma_insert_keeps_distinct(accounts, user);
    assert(after[i] == accounts[i]);
    lemma_found_is_unique(after, i);
}

/// An account whose email is already stored is refused as a duplicate
/// email, and the store is left as it was.
pub proof fn lemma_taken_email_is_refused(accounts: Seq<UserView>, user: UserView)
    requires
        holds_email(accounts, user.email),
    ensures
        insert_rejection(accounts, user) == Some(AppErrorView::DuplicateEmail),
        after_insert(accounts, user) == accounts,
{
}

/// An account whose username is already stored, while its email is not, is
/// refused as a duplicate username, and the store is left as it was.
pub proof fn lemma_taken_username_is_refused(accounts: Seq<UserView>, user: UserView)
    requires
        !holds_email(accounts, user.email),
        holds_username(accounts, user.username),
    ensures
        insert_rejection(accounts, user) == Some(AppErrorView::DuplicateUsername),
        after_insert(accounts, user) == accounts,
{
}

/// Of two accounts with one email, offered one after the other, the second
/// is refused as a duplicate email whenever the first was taken.
pub proof fn lemma_same_email_twice(accounts: Seq<UserView>, first: UserView, second: UserView)
    requires
        first.email == second.email,
        insert_rejection(accounts, first) is None,
    ensures
        insert_rejection(after_insert(accounts, first), second) == Some(
            AppErrorView::DuplicateEmail,
        ),
        after_insert(after_insert(accounts, first), second) == accounts.push(first),
{
    let after = accounts.push(first);
    assert(after[accounts.len() as int].email == second.email);
}

/// Two accounts that differ in email, username and identifier, and that
/// the store holds neither of, are both taken, one after the other, and each
/// is then found under its own email and username.
pub proof fn lemma_two_distinct_inserts(accounts: Seq<UserView>, first: UserView, second: UserView)
    requires
        distinct_accounts(accounts),
        insert_rejection(accounts, first) is None,
        insert_rejection(accounts, second) is None,
        first.email != second.email,
        first.username != second.username,
        first.id != second.id,
    ensures
        insert_rejection(after_insert(accounts, first), second) is None,
        ({
            let both = after_insert(after_insert(accounts, first), second);
            &&& both == accounts.push(first).push(second)
            &&& account_with_email(both, first.email) == Some(first)
            &&& account_with_email(both, second.email) == Some(second)
            &&& account_with_username(both, first.username) == Some(first)
            &&& account_with_username(both, second.username) == Some(second)
        }),
{
    let one = accounts.push(first);
    assert(after_insert(accounts, first) == one);
    assert(!holds_email(one, second.email)) by {
        if holds_email(one, second.email) {
            let i = choose|i: int| 0 <= i < one.len() && one[i].email == second.email;
            if i < accounts.len() {
                assert(accounts[i].email == second.email);
            }
        }
    }
    assert(!holds_username(one, second.username)) by {
        if holds_username(one, second.username) {
            let i = choose|i: int| 0 <= i < one.len() && one[i].username == second.username;
            if i < accounts.len() {
                assert(accounts[i].username == second.username);
            }
        }
    }
    assert(!holds_id(one, second.id)) by {
        if holds_id(one, second.id) {
            let i = choose|i: int| 0 <= i < one.len() && one[i].id == second.id;
            if i < accounts.len() {
                assert(accounts[i].id == second.id);
            }
        }
    }
    lemma_insert_keeps_distinct(accounts, first);
    lemma_inserted_is_found(one, second);
    assert(one[accounts.len() as int] == first);
    lemma_insert_keeps_found(one, second, accounts.len() as int);
}

/// However many accounts are offered, the store grows by one for each that
/// is taken and by none for each that is refused, and stays distinct.
pub proof fn lemma_count_tracks_inserts(accounts: Seq<UserView>, offered: Seq<UserView>)
    requires
        distinct_accounts(accounts),
    ensures
        after_all(accounts, offered).len() == accounts.len() + accepted_count(accounts, offered),
        distinct_accounts(after_all(accounts, offered)),
    decreases offered.len(),
{
    if offered.len() > 0 {
        lemma_count_tracks_inserts(accounts, offered.drop_last());
        lemma_insert_keeps_distinct(after_all(accounts, offered.drop_last()), offered.last());
    }
}

/// What a flow asks of an account store.
#[derive(Debug)]
pub enum StoreQuery {
    /// Look for the account with this email.
    FindByEmail(String),
    /// Look for the account with this username.
    FindByUsername(String),
    /// Add this account.
    Insert(User),
}

/// What a [`StoreQuery`] holds, with its texts as sequences of characters.
pub enum StoreQueryView {
    FindByEmail(Seq<char>),
    FindByUsername(Seq<char>),
    Insert(UserView),
}

/// What an account store answers to a [`StoreQuery`].
#[derive(Debug)]
pub enum StoreReply {
    /// The answer to a lookup: the account, or none.
    Found(Option<User>),
    /// The account was added.
    Inserted,
    /// A unique index turned the account down; which one is not told.
    Conflict,
    /// The store refused or could not do what was asked.
    Failed(AppError),
}

/// What a [`StoreReply`] holds, with its texts as sequences of characters.
pub enum StoreReplyView {
    Found(Option<UserView>),
    Inserted,
    Conflict,
    Failed(AppErrorView),
}

impl View for StoreQuery {
    type V = StoreQueryView;

    open spec fn view(&self) -> StoreQueryView {
        match *self {
            StoreQuery::FindByEmail(email) => StoreQueryView::FindByEmail(email@),
            StoreQuery::FindByUsername(username) => StoreQueryView::FindByUsername(username@),
            StoreQuery::Insert(user) => StoreQueryView::Insert(user@),
        }
    }
}

impl View for StoreReply {
    type V = StoreReplyView;

    open spec fn view(&self) -> StoreReplyView {
        match *self {
            StoreReply::Found(user) => StoreReplyView::Found(optional_account(user)),
            StoreReply::Inserted => StoreReplyView::Inserted,
            StoreReply::Conflict => StoreReplyView::Conflict,
            StoreReply::Failed(error) => StoreReplyView::Failed(error@),
        }
    }
}

/// What a store that holds `accounts` answers to `query`. It always tells
/// which duplicate it turns an account down for.
pub open spec fn store_answer(accounts: Seq<UserView>, query: StoreQueryView) -> StoreReplyView {
    match query {
        StoreQueryView::FindByEmail(email) => StoreReplyView::Found(
            account_with_email(accounts, email),
        ),
        StoreQueryView::FindByUsername(username) => StoreReplyView::Found(
            account_with_username(accounts, username),
        ),
        StoreQueryView::Insert(user) => match insert_rejection(accounts, user) {
            Some(error) => StoreReplyView::Failed(error),
            None => StoreReplyView::Inserted,
        },
    }
}

/// The accounts that a store holds after it answered `query`.
pub open spec fn store_after(accounts: Seq<UserView>, query: StoreQueryView) -> Seq<UserView> {
    match query {
        StoreQueryView::Insert(user) => after_insert(accounts, user),
        _ => accounts,
    }
}

/// The accounts of one process, in the order they were created. No two of
/// them share an email, a username or an identifier.
pub struct UserStore {
    users: Vec<User>,
}

impl View for UserStore {
    type V = Seq<UserView>;

    closed spec fn view(&self) -> Seq<UserView> {
        self.users@.map_values(|user: User| user@)
    }
}

impl UserStore {
    #[verifier::type_invariant]
    spec fn well_formed(self) -> bool {
        distinct_accounts(self@)
    }

    /// A store without accounts.
    pub fn new() -> (store: UserStore)
        ensures
            store@ == Seq::<UserView>::empty(),
    {
        let store = UserStore { users: Vec::new() };
        assert(store@ =~= Seq::<UserView>::empty());
        store
    }

    /// The number of accounts.
    pub fn count(&self) -> (count: usize)
        ensures
            count == self@.len(),
    {
        self.users.len()
    }

    /// The accounts never share an email, a username or an identifier.
    pub fn check_distinct(&self)
        ensures
            distinct_accounts(self@),
    {
        proof {
            use_type_invariant(self);
        }
    }

    fn position_of_email(&self, email: &str) -> (position: Option<usize>)
        ensures
            match position {
                Some(i) => i < self@.len() && self@[i as int].email == email@,
                None => !holds_email(self@, email@),
            },
    {
        let wanted = String::from_str(email);
        let mut i: usize = 0;
        while i < self.users.len()
            invariant
                i <= self.users.len(),
                wanted@ == email@,
                forall|j: int| 0 <= j < i ==> (#[trigger] self@[j]).email != email@,
            decreases self.users.len() - i,
        {
            if self.users[i].email == wanted {
                return Some(i);
            }
            i += 1;
        }
        None
    }

    fn position_of_username(&self, username: &str) -> (position: Option<usize>)
        ensures
            match position {
                Some(i) => i < self@.len() && self@[i as int].username == username@,
                None => !holds_username(self@, username@),
            },
    {
        let wanted = String::from_str(username);
        let mut i: usize = 0;
        while i < self.users.len()
            invariant
                i <= self.users.len(),
                wanted@ == username@,
                forall|j: int| 0 <= j < i ==> (#[trigger] self@[j]).username != username@,
            decreases self.users.len() - i,
        {
            if self.users[i].username == wanted {
                return Some(i);
            }
            i += 1;
        }
        None
    }

    fn position_of_id(&self, id: u128) -> (position: Option<usize>)
        ensures
            match position {
                Some(i) => i < self@.len() && self@[i as int].id == id,
                None => !holds_id(self@, id),
            },
    {
        let mut i: usize = 0;
        while i < self.users.len()
            invariant
                i <= self.users.len(),
                forall|j: int| 0 <= j < i ==> (#[trigger] self@[j]).id != id,
            decreases self.users.len() - i,
        {
            if self.users[i].id == id {
                return Some(i);
            }
            i += 1;
        }
        None
    }

    /// The account with the email `email`, if there is one.
    pub fn find_by_email(&self, email: &str) -> (found: Option<User>)
        ensures
            optional_account(found) == account_with_email(self@, email@),
    {
        proof {
            use_type_invariant(self);
        }
        match self.position_of_email(email) {
            Some(i) => Some(self.users[i].clone()),
            None => None,
        }
    }

    /// The account with the username `username`, if there is one.
    pub fn find_by_username(&self, username: &str) -> (found: Option<User>)
        ensures
            optional_account(found) == account_with_username(self@, username@),
    {
        proof {
            use_type_invariant(self);
        }
        match self.position_of_username(username) {
            Some(i) => Some(self.users[i].clone()),
            None => None,
        }
    }

    /// The account with the identifier `id`, if there is one.
    pub fn find_by_id(&self, id: u128) -> (found: Option<User>)
        ensures
            optional_account(found) == account_with_id(self@, id),
    {
        proof {
            use_type_invariant(self);
        }
        match self.position_of_id(id) {
            Some(i) => Some(self.users[i].clone()),
            None => None,
        }
    }

    /// Adds `user`, unless its email, its username or its identifier is
    /// already taken: then the store stays as it is, and the error says
    /// which of them was found first, in that order.
    pub fn insert(&mut self, user: User) -> (result: Result<(), AppError>)
        ensures
            final(self)@ == after_insert(old(self)@, user@),
            match result {
                Ok(()) => insert_rejection(old(self)@, user@) is None,
                Err(error) => insert_rejection(old(self)@, user@) == Some(error@),
            },
    {
        proof {
            use_type_invariant(&*self);
        }
        if self.position_of_email(user.email.as_str()).is_some() {
            return Err(AppError::DuplicateEmail);
        }
        if self.position_of_username(user.username.as_str()).is_some() {
            return Err(AppError::DuplicateUsername);
        }
        if self.position_of_id(user.id).is_some() {
            return Err(AppError::DatabaseError(String::from_str("User already exists")));
        }
        let ghost before = self@;
        let mut users: Vec<User> = Vec::new();
        std::mem::swap(&mut users, &mut self.users);
        users.push(user);
        proof {
            let after = users@.map_values(|user: User| user@);
            assert(after =~= before.push(user@));
            assert(distinct_accounts(after));
        }
        self.users = users;
        Ok(())
    }

    /// Does what `query` asks and answers it.
    pub fn answer(&mut self, query: StoreQuery) -> (reply: StoreReply)
        ensures
            reply@ == store_answer(old(self)@, query@),
            final(self)@ == store_after(old(self)@, query@),
    {
        match query {
            StoreQuery::FindByEmail(email) => StoreReply::Found(self.find_by_email(email.as_str())),
            StoreQuery::FindByUsername(username) => StoreReply::Found(
                self.find_by_username(username.as_str()),
            ),
            StoreQuery::Insert(user) => match self.insert(user) {
                Ok(()) => StoreReply::Inserted,
                Err(error) => StoreReply::Failed(error),
            },
        }
    }
}

} // verus!
