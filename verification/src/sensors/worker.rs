//! Reads that run on a worker so that a cooperative scheduler is not
//! stalled by the busy sampling.

use crate::error::{displays_as, ErrorView, SensorError};
use vstd::prelude::*;
use vstd::string::*;

verus! {

/// `tokio::task::JoinError`, carried through as an opaque value.
#[verifier::external_type_specification]
#[verifier::external_body]
pub struct ExJoinError(tokio::task::JoinError);

/// `error` reports that the worker could not be joined for the reason that
/// `cause` displays as.
pub open spec fn is_join_error(error: ErrorView, cause: tokio::task::JoinError) -> bool {
    exists|text: Seq<char>| #[trigger]
        displays_as(&cause, text) && error == ErrorView::SensorError("Task join error: "@ + text)
}

/// The outcome of a read that ran on a worker: what the read itself
/// returned if the worker could be joined, and otherwise a
/// `SensorError::SensorError` that no protocol failure produces.
pub fn worker_outcome<T>(joined: Result<Result<T, SensorError>, tokio::task::JoinError>) -> (outcome:
    Result<T, SensorError>)
    ensures
        match joined {
            Ok(inner) => outcome == inner,
            Err(cause) => outcome matches Err(error) && is_join_error(error@, cause),
        },
{
    match joined {
        Ok(inner) => inner,
        Err(cause) => {
            let text = cause.to_string();
            assert(displays_as(&cause, text@));
            Err(SensorError::SensorError(String::from_str("Task join error: ").concat(text.as_str())))
        },
    }
}

} // verus!
