//! The wall clock, read in whole seconds since the Unix epoch.

use crate::error::{displays_as, ErrorView, SensorError};
use std::time::{Duration, SystemTime, SystemTimeError, UNIX_EPOCH};
use vstd::prelude::*;
use vstd::string::*;

verus! {

/// `std::time::SystemTime`, carried through as an opaque value.
#[verifier::external_type_specification]
#[verifier::external_body]
pub struct ExSystemTime(SystemTime);

/// `std::time::SystemTimeError`, carried through as an opaque value.
#[verifier::external_type_specification]
#[verifier::external_body]
pub struct ExSystemTimeError(SystemTimeError);

/// Calls `SystemTime::now`. The result is whatever the system clock says at
/// the moment of the call, so nothing is claimed of it.
#[verifier::external_body]
fn system_now() -> (now: SystemTime) {
    SystemTime::now()
}

/// Calls `SystemTime::duration_since` with the Unix epoch as the earlier
/// time. It fails when the clock is set before the epoch. Nothing is
/// claimed of the result.
#[verifier::external_body]
fn since_unix_epoch(time: &SystemTime) -> (elapsed: Result<Duration, SystemTimeError>) {
    time.duration_since(UNIX_EPOCH)
}

/// Calls `Duration::as_secs`: the whole seconds that the duration holds.
/// A `Duration` is opaque here, so nothing is claimed of the result.
#[verifier::external_body]
fn whole_seconds(duration: &Duration) -> (seconds: u64) {
    duration.as_secs()
}

/// `error` is the failure reported when the clock cannot be read.
pub open spec fn is_time_error(error: ErrorView) -> bool {
    exists|cause: Seq<char>| error == ErrorView::SensorError("Time error: "@ + cause)
}

/// Reads the wall clock as whole seconds since the Unix epoch. A clock that
/// cannot be read this way gives a `SensorError::SensorError` whose message
/// begins with `Time error: `.
pub fn unix_timestamp() -> (stamp: Result<u64, SensorError>)
    ensures
        stamp matches Err(error) ==> is_time_error(error@),
{
    let now = system_now();
    let reading = match since_unix_epoch(&now) {
        Ok(elapsed) => Ok(whole_seconds(&elapsed)),
        Err(cause) => Err(cause),
    };
    timestamp_from(reading)
}

/// `error` is the failure reported for a clock that answered with `cause`:
/// a `SensorError::SensorError` whose message is `Time error: ` followed by
/// what `cause` displays as.
pub open spec fn is_time_error_of(error: ErrorView, cause: SystemTimeError) -> bool {
    exists|text: Seq<char>| #[trigger]
        displays_as(&cause, text) && error == ErrorView::SensorError("Time error: "@ + text)
}

/// The timestamp that one reading of the clock amounts to: the seconds
/// themselves if the clock gave them, and the time error of the cause if it
/// did not.
pub fn timestamp_from(reading: Result<u64, SystemTimeError>) -> (stamp: Result<u64, SensorError>)
    ensures
        match reading {
            Ok(seconds) => stamp == Ok::<u64, SensorError>(seconds),
            Err(cause) => stamp matches Err(error) && is_time_error_of(error@, cause),
        },
        stamp matches Err(error) ==> is_time_error(error@),
{
    match reading {
        Ok(seconds) => Ok(seconds),
        Err(cause) => {
            let text = cause.to_string();
            assert(displays_as(&cause, text@));
            Err(SensorError::SensorError(String::from_str("Time error: ").concat(text.as_str())))
        },
    }
}

} // verus!
