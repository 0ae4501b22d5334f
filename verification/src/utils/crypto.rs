use crate::errors::{AppError, AppErrorView};
use crate::utils::system::random_bytes;
use crate::utils::text::{begins_with, chars_of, starts_with};
use argon2::password_hash::{PasswordHash, PasswordHasher, PasswordVerifier, SaltString};
use argon2::Argon2;
use vstd::prelude::*;
use vstd::string::StringExecFns;

verus! {

/// The number of random bytes in the salt of a new hash.
pub const SALT_LENGTH: usize = 16;

/// A failure reported by the hashing library.
#[verifier::external_type_specification]
#[verifier::external_body]
pub struct ExPasswordHashError(argon2::password_hash::Error);

/// Whether Argon2 verification accepts `password` for `stored_hash`, a hash
/// in PHC string format: what `Argon2::default().verify_password` answers on
/// the parsed hash, and `false` where the hash does not parse.
pub uninterp spec fn argon2_accepts(password: Seq<char>, stored_hash: Seq<char>) -> bool;

/// How every hash made here starts: the PHC string names Argon2id in
/// version 19 with 19456 KiB of memory, 2 passes and 1 lane; salt and digest
/// follow.
pub open spec fn hash_header() -> Seq<char> {
    "$argon2id$v=19$m=19456,t=2,p=1$"@
}

/// `stored_hash` is a hash with the header of the hashes made here, and
/// Argon2 verification accepts `password` for it.
pub open spec fn hash_accepts(password: Seq<char>, stored_hash: Seq<char>) -> bool {
    begins_with(stored_hash, hash_header()) && argon2_accepts(password, stored_hash)
}

/// No character of `text` is an `@`.
pub open spec fn without_at_sign(text: Seq<char>) -> bool {
    forall|i: int| 0 <= i < text.len() ==> text[i] != '@'
}

/// `hash` is what a hashing of `password` may hand out: it accepts the
/// password, it is not the password itself, and it holds no `@`.
pub open spec fn hash_made_for(password: Seq<char>, hash: Seq<char>) -> bool {
    &&& hash_accepts(password, hash)
    &&& hash != password
    &&& without_at_sign(hash)
}

/// The text of the error that a failed hashing ends in.
pub open spec fn hashing_failed_text() -> Seq<char> {
    "Failed to hash password"@
}

/// Hashes `password` with Argon2id and its default parameters under `salt`,
/// through `SaltString::encode_b64` and `PasswordHasher::hash_password` of
/// `argon2`, and renders the hash as a PHC string. Assumed: a hash that is
/// produced is accepted for the password it was made from, because
/// verification reads algorithm, version, parameters and salt back from the
/// string and computes the same digest again; and the string starts with the
/// names of the default algorithm, version and parameters.
#[verifier::external_body]
fn argon2_hash(password: &str, salt: &[u8]) -> (hash: Result<String, argon2::password_hash::Error>)
    requires
        salt@.len() == SALT_LENGTH,
    ensures
        hash matches Ok(hash) ==> argon2_accepts(password@, hash@) && begins_with(
            hash@,
            hash_header(),
        ),
{
    let salt = SaltString::encode_b64(salt)?;
    let hash = Argon2::default().hash_password(password.as_bytes(), &salt)?;
    Ok(hash.to_string())
}

/// Parses `stored_hash` with `PasswordHash::new` and checks `password`
/// against it with `PasswordVerifier::verify_password` of `argon2`. Assumed:
/// the answer depends on the two texts alone. A hash that does not parse
/// counts as a mismatch. Only a text with the header of the hashes made here
/// is let in: its algorithm, version and cost are the default ones, so that
/// no parameter of a foreign text reaches the arithmetic of the outside
/// crate.
#[verifier::external_body]
fn argon2_verify(password: &str, stored_hash: &str) -> (accepted: bool)
    requires
        begins_with(stored_hash@, hash_header()),
    ensures
        accepted == argon2_accepts(password@, stored_hash@),
{
    match PasswordHash::new(stored_hash) {
        Ok(parsed) => Argon2::default().verify_password(password.as_bytes(), &parsed).is_ok(),
        Err(_) => false,
    }
}

/// Tells whether `hash` differs from `password` and holds no `@`.
fn is_sound_hash(password: &str, hash: &str) -> (sound: bool)
    ensures
        sound == (hash@ != password@ && without_at_sign(hash@)),
{
    let plain = chars_of(password);
    let digest = chars_of(hash);
    let mut same = plain.len() == digest.len();
    let mut clean = true;
    let mut i: usize = 0;
    while i < digest.len()
        invariant
            i <= digest.len(),
            plain@ == password@,
            digest@ == hash@,
            same <==> (plain.len() == digest.len() && forall|j: int|
                0 <= j < i ==> plain@[j] == digest@[j]),
            clean <==> forall|j: int| 0 <= j < i ==> digest@[j] != '@',
        decreases digest.len() - i,
    {
        if same && plain[i] != digest[i] {
            same = false;
        }
        if digest[i] == '@' {
            clean = false;
        }
        i += 1;
    }
    proof {
        if same {
            assert(hash@ =~= password@);
        }
    }
    !same && clean
}

/// Salted, memory-hard password hashing.
pub struct PasswordManager;

impl PasswordManager {
    /// Hashes `password` under a fresh random salt. The hash embeds
    /// algorithm, parameters and salt, and is accepted by
    /// [`PasswordManager::verify_password`] for the same password. It is
    /// never the password itself and holds no `@`: a hash that came out
    /// otherwise is not handed on. Fails only when the random source or the
    /// hashing library fails, or on such a hash.
    pub fn hash_password(password: &str) -> (result: Result<String, AppError>)
        ensures
            match result {
                Ok(hash) => hash_made_for(password@, hash@),
                Err(error) => error@ == AppErrorView::InternalError(hashing_failed_text()),
            },
    {
        let salt = match random_bytes(SALT_LENGTH) {
            Some(salt) => salt,
            None => {
                return Err(AppError::InternalError(String::from_str("Failed to hash password")));
            },
        };
        match argon2_hash(password, salt.as_slice()) {
            Ok(hash) => {
                if is_sound_hash(password, hash.as_str()) {
                    Ok(hash)
                } else {
                    Err(AppError::InternalError(String::from_str("Failed to hash password")))
                }
            },
            Err(_) => Err(AppError::InternalError(String::from_str("Failed to hash password"))),
        }
    }

    /// Tells whether `stored_hash` is a hash made here from `password`. A
    /// stored text that is malformed, or that does not start with the header
    /// of the hashes made here, is a mismatch, not an error.
    pub fn verify_password(password: &str, stored_hash: &str) -> (accepted: bool)
        ensures
            accepted == hash_accepts(password@, stored_hash@),
    {
        if starts_with(stored_hash, "$argon2id$v=19$m=19456,t=2,p=1$") {
            argon2_verify(password, stored_hash)
        } else {
            false
        }
    }
}

} // verus!
