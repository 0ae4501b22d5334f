use stellar_wallet::errors::{AppError, ValidationFailure};
use stellar_wallet::models::user::CreateUserRequest;
use stellar_wallet::services::user_service::UserService;
use stellar_wallet::utils::crypto::PasswordManager;

fn request(email: &str, username: &str, password: &str) -> CreateUserRequest {
    CreateUserRequest {
        email: email.to_string(),
        username: username.to_string(),
        password: password.to_string(),
    }
}

#[test]
fn created_account_is_returned_without_hash() {
    let mut service = UserService::new();
    assert_eq!(service.get_user_count(), 0);
    let response =
        service.create_user(request("alice@example.com", "alice", "Abcdef1!")).expect("created");
    assert_eq!(response.email, "alice@example.com");
    assert_eq!(response.username, "alice");
    assert!(!response.is_verified);
    assert_eq!(response.stellar_public_key, None);
    assert!(response.created_at.seconds > 1_600_000_000);
    assert!(response.created_at.nanoseconds < 2_000_000_000);
    assert_eq!(response.updated_at, response.created_at);
    assert_eq!(service.get_user_count(), 1);
    // A version-4 identifier of the RFC variant.
    assert_eq!((response.id >> 76) & 0xf, 4);
    assert_eq!((response.id >> 62) & 0x3, 2);
    service.check_accounts();
}

#[test]
fn created_account_is_found_by_email_username_and_id() {
    let mut service = UserService::new();
    let created =
        service.create_user(request("Alice@Example.com", "alice", "Abcdef1!")).expect("created");
    let by_email = service.get_user_by_email("Alice@Example.com").expect("no failure").expect("found");
    assert_eq!(by_email.email, "Alice@Example.com");
    assert_eq!(by_email.id, created.id);
    assert_eq!(by_email.created_at, created.created_at);
    let by_name = service.get_user_by_username("alice").expect("no failure").expect("found");
    assert_eq!(by_name.id, created.id);
    let by_id = service.get_user_by_id(created.id).expect("no failure").expect("found");
    assert_eq!(by_id.username, "alice");
    assert!(service.get_user_by_email("alice@example.com").expect("no failure").is_none());
    assert!(service.get_user_by_username("Alice").expect("no failure").is_none());
    assert!(service.get_user_by_id(created.id ^ 1).expect("no failure").is_none());
}

#[test]
fn invalid_request_is_rejected_before_anything_else() {
    let mut service = UserService::new();
    assert_eq!(
        service.create_user(request("", "alice", "Abcdef1!")).err(),
        Some(AppError::ValidationError(ValidationFailure::EmailEmpty))
    );
    assert_eq!(
        service.create_user(request("alice@example", "al", "abc")).err(),
        Some(AppError::ValidationError(ValidationFailure::EmailMalformed))
    );
    assert_eq!(
        service.create_user(request("alice@example.com", "al", "abc")).err(),
        Some(AppError::ValidationError(ValidationFailure::UsernameTooShort))
    );
    assert_eq!(
        service.create_user(request("alice@example.com", "alice", "abc")).err(),
        Some(AppError::ValidationError(ValidationFailure::PasswordTooShort))
    );
    assert_eq!(service.get_user_count(), 0);
}

#[test]
fn taken_email_fails_with_duplicate_email() {
    let mut service = UserService::new();
    service.create_user(request("alice@example.com", "alice", "Abcdef1!")).expect("created");
    assert_eq!(
        service.create_user(request("alice@example.com", "alice2", "Abcdef1!")).err(),
        Some(AppError::DuplicateEmail)
    );
    assert_eq!(service.get_user_count(), 1);
    assert!(service.get_user_by_username("alice2").expect("no failure").is_none());
}

#[test]
fn taken_username_fails_with_duplicate_username() {
    let mut service = UserService::new();
    service.create_user(request("alice@example.com", "alice", "Abcdef1!")).expect("created");
    assert_eq!(
        service.create_user(request("other@example.com", "alice", "Abcdef1!")).err(),
        Some(AppError::DuplicateUsername)
    );
    assert_eq!(service.get_user_count(), 1);
    assert!(service.get_user_by_email("other@example.com").expect("no failure").is_none());
}

#[test]
fn invalid_request_for_taken_email_is_a_validation_error() {
    let mut service = UserService::new();
    service.create_user(request("alice@example.com", "alice", "Abcdef1!")).expect("created");
    assert_eq!(
        service.create_user(request("alice@example.com", "alice", "weak")).err(),
        Some(AppError::ValidationError(ValidationFailure::PasswordTooShort))
    );
}

#[test]
fn two_distinct_accounts_are_both_created_and_retrievable() {
    let mut service = UserService::new();
    let alice =
        service.create_user(request("alice@example.com", "alice", "Abcdef1!")).expect("created");
    let bob = service.create_user(request("bob@example.com", "bob", "Zyxwvu9?")).expect("created");
    assert_ne!(alice.id, bob.id);
    assert_eq!(service.get_user_count(), 2);
    let found = service.get_user_by_email("alice@example.com").expect("no failure").expect("found");
    assert_eq!((found.id, found.username.as_str()), (alice.id, "alice"));
    let found = service.get_user_by_email("bob@example.com").expect("no failure").expect("found");
    assert_eq!((found.id, found.username.as_str()), (bob.id, "bob"));
    let found = service.get_user_by_username("bob").expect("no failure").expect("found");
    assert_eq!(found.email, "bob@example.com");
}

#[test]
fn account_logs_in_by_email_and_by_username() {
    let mut service = UserService::new();
    let created =
        service.create_user(request("alice@example.com", "alice", "Abcdef1!")).expect("created");
    let by_email = service.authenticate_user("alice@example.com", "Abcdef1!").expect("accepted");
    assert_eq!(by_email.id, created.id);
    assert_eq!(by_email.email, "alice@example.com");
    let by_name = service.authenticate_user("alice", "Abcdef1!").expect("accepted");
    assert_eq!(by_name.id, created.id);
}

#[test]
fn wrong_password_and_unknown_name_fail_alike() {
    let mut service = UserService::new();
    service.create_user(request("alice@example.com", "alice", "Abcdef1!")).expect("created");
    let wrong_password = service.authenticate_user("alice", "Abcdef1?").err();
    let unknown_name = service.authenticate_user("nobody", "Abcdef1!").err();
    assert_eq!(wrong_password, Some(AppError::AuthenticationError));
    assert_eq!(wrong_password, unknown_name);
    assert_eq!(
        wrong_password.map(|error| error.message()),
        unknown_name.map(|error| error.message())
    );
    assert_eq!(
        service.authenticate_user("alice@example.com", "").err(),
        Some(AppError::AuthenticationError)
    );
    assert_eq!(service.authenticate_user("", "").err(), Some(AppError::AuthenticationError));
}

#[test]
fn count_follows_successful_creations_only() {
    let mut service = UserService::new();
    let attempts = [
        request("alice@example.com", "alice", "Abcdef1!"),
        request("alice@example.com", "alice", "Abcdef1!"),
        request("bad", "bob", "Abcdef1!"),
        request("bob@example.com", "alice", "Abcdef1!"),
        request("bob@example.com", "bob", "Abcdef1!"),
    ];
    let mut created = 0;
    for attempt in attempts {
        if service.create_user(attempt).is_ok() {
            created += 1;
        }
        assert_eq!(service.get_user_count(), created);
    }
    assert_eq!(created, 2);
}

#[test]
fn stored_hash_is_never_the_password() {
    let mut service = UserService::new();
    let response =
        service.create_user(request("alice@example.com", "alice", "Abcdef1!")).expect("created");
    assert!(!format!("{:?}", response).contains("Abcdef1!"));
    assert!(!PasswordManager::verify_password("Abcdef1!", "Abcdef1!"));
}
