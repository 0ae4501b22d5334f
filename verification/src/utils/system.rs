use crate::models::user::Timestamp;
use argon2::password_hash::rand_core::{OsRng, RngCore};
use chrono::{DateTime, Utc};
use std::time::UNIX_EPOCH;
use uuid::Builder;
use vstd::prelude::*;

verus! {

/// The number of random bytes that an identifier is made from.
pub const IDENTIFIER_LENGTH: usize = 16;

/// The number that `bytes` spell, the first byte counting most.
pub open spec fn big_endian(bytes: Seq<u8>) -> nat
    decreases bytes.len(),
{
    if bytes.len() == 0 {
        0
    } else {
        256 * big_endian(bytes.drop_last()) + bytes.last() as nat
    }
}

/// The version-4 identifier made from 16 bytes: the high four bits of byte
/// 6 are set to the version, 4, the high two bits of byte 8 to the variant,
/// binary 10, and the 16 bytes are read as one number, the first byte
/// counting most.
pub open spec fn version_4_identifier(bytes: Seq<u8>) -> u128 {
    big_endian(
        bytes.update(6, (bytes[6] & 0x0f) | 0x40).update(8, (bytes[8] & 0x3f) | 0x80),
    ) as u128
}

/// Asks the operating system for `length` random bytes, through
/// `OsRng::try_fill_bytes` of `rand_core`, which `argon2` hands on. Assumed:
/// the vector that comes back has the length asked for. Nothing is assumed of
/// the bytes, nor that the call succeeds.
#[verifier::external_body]
pub(crate) fn random_bytes(length: usize) -> (bytes: Option<Vec<u8>>)
    ensures
        bytes matches Some(bytes) ==> bytes@.len() == length,
{
    let mut bytes = vec![0u8; length];
    match OsRng.try_fill_bytes(&mut bytes) {
        Ok(()) => Some(bytes),
        Err(_) => None,
    }
}

/// Makes a version-4 identifier from 16 bytes with
/// `Builder::from_random_bytes` of `uuid` and hands out its 128-bit value.
/// Assumed: the call sets the version bits in byte 6 and the variant bits in
/// byte 8 and leaves every other bit as it is, and the value reads the bytes
/// with the first byte counting most.
#[verifier::external_body]
fn identifier_of(bytes: &[u8]) -> (id: u128)
    requires
        bytes@.len() == IDENTIFIER_LENGTH,
    ensures
        id == version_4_identifier(bytes@),
{
    let mut random = [0u8; 16];
    random.copy_from_slice(bytes);
    Builder::from_random_bytes(random).into_uuid().as_u128()
}

/// Reads the clock with `SystemTime::elapsed` of std on the Unix epoch, and
/// has `DateTime::from_timestamp` of `chrono` make the instant, whose seconds
/// and nanoseconds are handed out. Nothing is assumed of the value, nor that
/// there is one: a clock that stands before 1970, or beyond the years that
/// `chrono` can hold, gives none.
#[verifier::external_body]
pub(crate) fn current_time() -> (now: Option<Timestamp>) {
    let elapsed = UNIX_EPOCH.elapsed().ok()?;
    let seconds = i64::try_from(elapsed.as_secs()).ok()?;
    let now = DateTime::<Utc>::from_timestamp(seconds, elapsed.subsec_nanos())?;
    Some(Timestamp { seconds: now.timestamp(), nanoseconds: now.timestamp_subsec_nanos() })
}

/// The version-4 identifier that 16 bytes make; none for any other number
/// of bytes.
pub fn user_id_from(bytes: &[u8]) -> (id: Option<u128>)
    ensures
        id == if bytes@.len() == IDENTIFIER_LENGTH {
            Some(version_4_identifier(bytes@))
        } else {
            None
        },
{
    if bytes.len() == IDENTIFIER_LENGTH {
        Some(identifier_of(bytes))
    } else {
        None
    }
}

/// A version-4 identifier from fresh random bytes; none where the
/// operating system has no random bytes to give.
pub(crate) fn random_user_id() -> (id: Option<u128>) {
    match random_bytes(IDENTIFIER_LENGTH) {
        Some(bytes) => user_id_from(bytes.as_slice()),
        None => None,
    }
}

} // verus!
