use crate::errors::{AppError, AppErrorView};
use crate::services::user_store::{StoreReply, StoreReplyView};
use vstd::prelude::*;
use vstd::string::StringExecFns;

verus! {

/// What a failed insert is answered with. Where the engine reports that a
/// unique index turned the row down, that is all that is passed on, and the
/// creation asks which value is taken; any other failure is a store failure
/// that carries the engine's message.
pub open spec fn failed_insert_reply(unique_violation: bool, message: Seq<char>) -> StoreReplyView {
    if unique_violation {
        StoreReplyView::Conflict
    } else {
        StoreReplyView::Failed(AppErrorView::DatabaseError("Failed to create user: "@ + message))
    }
}

/// The reply for an insert that the engine turned down: `unique_violation`
/// is the kind of failure that the engine reports, `message` its text.
pub fn failed_insert(unique_violation: bool, message: &str) -> (reply: StoreReply)
    ensures
        reply@ == failed_insert_reply(unique_violation, message@),
{
    if unique_violation {
        StoreReply::Conflict
    } else {
        StoreReply::Failed(
            AppError::DatabaseError(String::from_str("Failed to create user: ").concat(message)),
        )
    }
}

} // verus!
