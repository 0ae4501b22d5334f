use stellar_wallet::utils::crypto::PasswordManager;

#[test]
fn hash_is_accepted_for_its_password() {
    let hash = PasswordManager::hash_password("Abcdef1!").expect("hashing works");
    assert!(PasswordManager::verify_password("Abcdef1!", &hash));
}

#[test]
fn hash_is_rejected_for_another_password() {
    let hash = PasswordManager::hash_password("Abcdef1!").expect("hashing works");
    assert!(!PasswordManager::verify_password("Abcdef1?", &hash));
    assert!(!PasswordManager::verify_password("", &hash));
}

#[test]
fn hash_is_not_the_password_and_describes_itself() {
    let hash = PasswordManager::hash_password("Abcdef1!").expect("hashing works");
    assert_ne!(hash, "Abcdef1!");
    assert!(!hash.contains("Abcdef1!"));
    assert!(hash.starts_with("$argon2id$v=19$m=19456,t=2,p=1$"), "{}", hash);
    assert_eq!(hash.split('$').count(), 6);
}

#[test]
fn two_hashes_of_one_password_differ_in_salt() {
    let one = PasswordManager::hash_password("Abcdef1!").expect("hashing works");
    let other = PasswordManager::hash_password("Abcdef1!").expect("hashing works");
    assert_ne!(one, other);
    let salt_of = |hash: &str| hash.split('$').nth(4).map(str::to_string);
    assert_ne!(salt_of(&one), salt_of(&other));
    assert_eq!(salt_of(&one).map(|salt| salt.len()), Some(22));
}

#[test]
fn hash_holds_no_at_sign_and_is_not_the_password() {
    let password = "$argon2id$v=19$m=19456,t=2,p=1$Abcdef1!@";
    let hash = PasswordManager::hash_password(password).expect("hashing works");
    assert_ne!(hash, password);
    assert!(!hash.contains('@'));
    assert!(PasswordManager::verify_password(password, &hash));
}

#[test]
fn stored_text_with_foreign_parameters_is_a_mismatch() {
    let digest = "c29tZXNhbHQ$TkjmQyi8DrLGGs0ccwUfLw+hJnmcxdOMOt0FbEQBqZM";
    for header in [
        "$argon2id$v=19$m=19456,t=2,p=536870912$",
        "$argon2id$v=19$m=4294967295,t=2,p=4294967295$",
        "$argon2id$v=19$m=4294967295,t=4294967295,p=1$",
        "$argon2id$v=19$m=16,t=2,p=1$",
        "$argon2i$v=19$m=19456,t=2,p=1$",
        "$argon2id$v=16$m=19456,t=2,p=1$",
        "$argon2id$m=19456,t=2,p=1$",
    ] {
        let stored = format!("{}{}", header, digest);
        assert!(!PasswordManager::verify_password("password", &stored), "{}", stored);
    }
}

#[test]
fn stored_text_with_the_header_and_nothing_sound_after_it_is_a_mismatch() {
    for rest in ["", "$", "c29tZXNhbHQ", "c29tZXNhbHQ$", "c29tZXNhbHQ$short", "a$b$c", "@@@", "c29tZXNhbHQ$TkjmQyi8DrLGGs0ccwUfLw+hJnmcxdOMOt0FbEQBqZM$more"] {
        let stored = format!("$argon2id$v=19$m=19456,t=2,p=1${}", rest);
        assert!(!PasswordManager::verify_password("password", &stored), "{}", stored);
    }
}

#[test]
fn malformed_stored_hash_is_a_mismatch() {
    assert!(!PasswordManager::verify_password("Abcdef1!", ""));
    assert!(!PasswordManager::verify_password("Abcdef1!", "Abcdef1!"));
    assert!(!PasswordManager::verify_password("Abcdef1!", "$argon2id$v=19$m=19456,t=2,p=1$"));
    assert!(!PasswordManager::verify_password("Abcdef1!", "not a hash at all"));
}

#[test]
fn verification_says_the_same_every_time() {
    let stored = PasswordManager::hash_password("password").expect("hashing works");
    for _ in 0..2 {
        assert!(PasswordManager::verify_password("password", &stored));
        assert!(!PasswordManager::verify_password("Password", &stored));
    }
}

#[test]
fn empty_and_long_passwords_can_be_hashed() {
    let empty = PasswordManager::hash_password("").expect("hashing works");
    assert!(PasswordManager::verify_password("", &empty));
    assert!(!PasswordManager::verify_password(" ", &empty));
    let long = "pässwörd ".repeat(200);
    let hash = PasswordManager::hash_password(&long).expect("hashing works");
    assert!(PasswordManager::verify_password(&long, &hash));
}
