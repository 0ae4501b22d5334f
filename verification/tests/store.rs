use stellar_wallet::errors::AppError;
use stellar_wallet::models::user::{CreateUserRequest, Timestamp, User, UserResponse};
use stellar_wallet::services::user_store::{StoreQuery, StoreReply, UserStore};

fn account(id: u128, email: &str, username: &str) -> User {
    User::new(
        id,
        CreateUserRequest {
            email: email.to_string(),
            username: username.to_string(),
            password: "unused".to_string(),
        },
        format!("hash-of-{}", username),
        Timestamp { seconds: 1_700_000_000, nanoseconds: 5 },
    )
}

#[test]
fn new_account_has_creation_defaults() {
    let user = account(7, "a@b.c", "alice");
    assert_eq!(user.id, 7);
    assert_eq!(user.email, "a@b.c");
    assert_eq!(user.username, "alice");
    assert_eq!(user.password_hash, "hash-of-alice");
    assert!(!user.is_verified);
    assert_eq!(user.stellar_public_key, None);
    assert_eq!(user.created_at, Timestamp { seconds: 1_700_000_000, nanoseconds: 5 });
    assert_eq!(user.updated_at, user.created_at);
}

#[test]
fn response_leaves_the_hash_out() {
    let mut user = account(7, "a@b.c", "alice");
    user.is_verified = true;
    user.stellar_public_key = Some("GABC".to_string());
    user.updated_at = Timestamp { seconds: 1_700_000_100, nanoseconds: 9 };
    let response = UserResponse::from(user.clone());
    assert_eq!(response.id, 7);
    assert_eq!(response.email, "a@b.c");
    assert_eq!(response.username, "alice");
    assert!(response.is_verified);
    assert_eq!(response.stellar_public_key, Some("GABC".to_string()));
    assert_eq!(response.created_at, user.created_at);
    assert_eq!(response.updated_at, Timestamp { seconds: 1_700_000_100, nanoseconds: 9 });
    assert_ne!(response.updated_at, response.created_at);
    assert!(!format!("{:?}", response).contains("hash-of-alice"));
    let copy = response.clone();
    assert_eq!(format!("{:?}", copy), format!("{:?}", response));
}

#[test]
fn empty_store_finds_nothing() {
    let store = UserStore::new();
    assert_eq!(store.count(), 0);
    assert!(store.find_by_email("a@b.c").is_none());
    assert!(store.find_by_username("alice").is_none());
    assert!(store.find_by_id(7).is_none());
}

#[test]
fn inserted_account_is_found_exactly() {
    let mut store = UserStore::new();
    assert_eq!(store.insert(account(7, "Alice@Example.com", "alice")), Ok(()));
    assert_eq!(store.count(), 1);
    let found = store.find_by_email("Alice@Example.com").expect("stored");
    assert_eq!(found.email, "Alice@Example.com");
    assert_eq!(found.username, "alice");
    assert_eq!(found.id, 7);
    assert_eq!(found.password_hash, "hash-of-alice");
    assert!(store.find_by_email("alice@example.com").is_none());
    assert_eq!(store.find_by_username("alice").map(|user| user.id), Some(7));
    assert_eq!(store.find_by_id(7).map(|user| user.email), Some("Alice@Example.com".to_string()));
    store.check_distinct();
}

#[test]
fn duplicate_email_is_refused_and_store_unchanged() {
    let mut store = UserStore::new();
    assert_eq!(store.insert(account(1, "a@b.c", "alice")), Ok(()));
    assert_eq!(store.insert(account(2, "a@b.c", "bob")), Err(AppError::DuplicateEmail));
    assert_eq!(store.count(), 1);
    assert!(store.find_by_username("bob").is_none());
    assert_eq!(store.find_by_email("a@b.c").map(|user| user.id), Some(1));
}

#[test]
fn duplicate_username_is_refused_and_store_unchanged() {
    let mut store = UserStore::new();
    assert_eq!(store.insert(account(1, "a@b.c", "alice")), Ok(()));
    assert_eq!(store.insert(account(2, "x@y.z", "alice")), Err(AppError::DuplicateUsername));
    assert_eq!(store.count(), 1);
    assert!(store.find_by_email("x@y.z").is_none());
}

#[test]
fn duplicate_email_is_reported_before_duplicate_username() {
    let mut store = UserStore::new();
    assert_eq!(store.insert(account(1, "a@b.c", "alice")), Ok(()));
    assert_eq!(store.insert(account(1, "a@b.c", "alice")), Err(AppError::DuplicateEmail));
}

#[test]
fn duplicate_identifier_is_refused() {
    let mut store = UserStore::new();
    assert_eq!(store.insert(account(1, "a@b.c", "alice")), Ok(()));
    assert_eq!(
        store.insert(account(1, "x@y.z", "bob")),
        Err(AppError::DatabaseError("User already exists".to_string()))
    );
    assert_eq!(store.count(), 1);
}

#[test]
fn accounts_keep_their_order_and_stay_retrievable() {
    let mut store = UserStore::new();
    for (id, name) in [(1u128, "alice"), (2, "bob"), (3, "carol")] {
        assert_eq!(store.insert(account(id, &format!("{}@example.com", name), name)), Ok(()));
    }
    assert_eq!(store.count(), 3);
    for (id, name) in [(1u128, "alice"), (2, "bob"), (3, "carol")] {
        assert_eq!(store.find_by_username(name).map(|user| user.id), Some(id));
        assert_eq!(
            store.find_by_email(&format!("{}@example.com", name)).map(|user| user.id),
            Some(id)
        );
        assert_eq!(store.find_by_id(id).map(|user| user.username), Some(name.to_string()));
    }
}

#[test]
fn count_is_the_number_of_accepted_inserts() {
    let mut store = UserStore::new();
    let offered = [
        account(1, "a@b.c", "alice"),
        account(2, "a@b.c", "bob"),
        account(3, "b@b.c", "bob"),
        account(4, "c@b.c", "bob"),
        account(3, "d@b.c", "dave"),
        account(5, "e@b.c", "erin"),
    ];
    let mut accepted = 0;
    for user in offered {
        if store.insert(user).is_ok() {
            accepted += 1;
        }
        assert_eq!(store.count(), accepted);
    }
    assert_eq!(accepted, 3);
}

#[test]
fn store_answers_queries() {
    let mut store = UserStore::new();
    let reply = store.answer(StoreQuery::Insert(account(1, "a@b.c", "alice")));
    assert!(matches!(reply, StoreReply::Inserted));
    let reply = store.answer(StoreQuery::Insert(account(2, "a@b.c", "bob")));
    assert!(matches!(reply, StoreReply::Failed(AppError::DuplicateEmail)));
    let reply = store.answer(StoreQuery::FindByEmail("a@b.c".to_string()));
    assert!(matches!(reply, StoreReply::Found(Some(user)) if user.id == 1));
    let reply = store.answer(StoreQuery::FindByUsername("alice".to_string()));
    assert!(matches!(reply, StoreReply::Found(Some(user)) if user.email == "a@b.c"));
    let reply = store.answer(StoreQuery::FindByUsername("bob".to_string()));
    assert!(matches!(reply, StoreReply::Found(None)));
    assert_eq!(store.count(), 1);
}
