//! The wall clock, read as whole seconds since the Unix epoch.

use vstd::prelude::*;
use std::time::{Duration, SystemTime, SystemTimeError, UNIX_EPOCH};

verus! {

/// A point in time of the system clock.
#[verifier::external_type_specification]
#[verifier::external_body]
pub struct ExSystemTime(std::time::SystemTime);

/// The error of a clock that stands before the point it is measured from.
#[verifier::external_type_specification]
#[verifier::external_body]
pub struct ExSystemTimeError(std::time::SystemTimeError);

/// The system clock's present reading; nothing is known of it.
pub assume_specification[ std::time::SystemTime::now ]() -> (now: SystemTime);

/// `SystemTime::duration_since` with `UNIX_EPOCH`: the span from the Unix
/// epoch to `at`, or an error where `at` lies before the epoch.
#[verifier::external_body]
fn since_unix_epoch(at: &SystemTime) -> (elapsed: Result<Duration, SystemTimeError>) {
    at.duration_since(UNIX_EPOCH)
}

/// The whole seconds that a span holds (`Duration::as_secs`).
pub uninterp spec fn whole_seconds(span: Duration) -> u64;

/// `Duration::as_secs`: the whole seconds of a span, which depend on the span
/// alone.
pub assume_specification[ core::time::Duration::as_secs ](span: &Duration) -> (seconds: u64)
    ensures
        seconds == whole_seconds(*span),
;

/// Whole seconds from the Unix epoch to now; `None` where the clock stands
/// before the epoch.
pub(crate) fn unix_seconds() -> (seconds: Option<u64>) {
    let now = SystemTime::now();
    seconds_of(since_unix_epoch(&now))
}

/// The reading that a measurement stands for: the whole seconds of the span
/// where one was measured, and none where the measurement failed.
pub fn seconds_of(elapsed: Result<Duration, SystemTimeError>) -> (seconds: Option<u64>)
    ensures
        match elapsed {
            Ok(span) => seconds == Some(whole_seconds(span)),
            Err(_) => seconds is None,
        },
{
    match elapsed {
        Ok(span) => Some(span.as_secs()),
        Err(_) => None,
    }
}

} // verus!
