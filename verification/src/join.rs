//! Which ends of background tasks are worth a warning.

use tokio::task::JoinError;
use vstd::prelude::*;

verus! {

/// The error of `tokio` for a task that did not run to its end. Trusted: that there is such a type.
#[verifier::external_type_specification]
#[verifier::external_body]
pub struct ExJoinError(JoinError);

/// What `tokio::task::JoinError::is_cancelled` returns for `error`: whether the task was cancelled,
/// rather than having panicked.
pub uninterp spec fn join_error_is_cancelled(error: JoinError) -> bool;

/// `tokio::task::JoinError::is_cancelled`.
///
/// Trusted: it looks at nothing but the error, so that the same error always gets the same answer.
pub assume_specification[ JoinError::is_cancelled ](error: &JoinError) -> (cancelled: bool)
    ensures
        cancelled == join_error_is_cancelled(*error),
;

/// Whether the end of a task is worth a warning. `cancelled` is `None` for a task that ran to its
/// end, and says of any other whether it was cancelled.
pub fn join_end_is_reported(cancelled: Option<bool>) -> (reported: bool)
    ensures
        reported == (cancelled == Some(false)),
{
    match cancelled {
        Some(cancelled) => !cancelled,
        None => false,
    }
}

/// The error to warn about at the end of a background task: a task that was cancelled is no failure.
pub open spec fn join_warning(result: Result<(), JoinError>) -> Option<JoinError> {
    match result {
        Ok(()) => None,
        Err(error) => if join_error_is_cancelled(error) {
            None
        } else {
            Some(error)
        },
    }
}

/// The error to warn about at the end of a background task: a task that was cancelled is no failure.
pub fn log_initialization_join_result(result: Result<(), JoinError>) -> (warning: Option<JoinError>)
    ensures
        warning == join_warning(result),
{
    match result {
        Ok(()) => None,
        Err(error) => {
            if join_end_is_reported(Some(error.is_cancelled())) {
                Some(error)
            } else {
                None
            }
        },
    }
}

} // verus!
