//! The wall clock, read as a plain number: the time is whatever the
//! machine says, so nothing is claimed of the reading itself.

use std::time::SystemTime;
use std::time::SystemTimeError;
use std::time::UNIX_EPOCH;
use vstd::prelude::*;

verus! {

/// `std::time::SystemTime`, carried as an opaque value.
#[verifier::external_type_specification]
#[verifier::external_body]
pub struct ExSystemTime(SystemTime);

/// `std::time::SystemTimeError`, carried as an opaque value.
#[verifier::external_type_specification]
#[verifier::external_body]
pub struct ExSystemTimeError(SystemTimeError);

/// `SystemTime::now`: the current reading of the system clock. Nothing is
/// claimed of it.
pub assume_specification[ SystemTime::now ]() -> (now: SystemTime);

/// `Duration::as_nanos`: the whole nanoseconds in a std duration.
pub assume_specification[ std::time::Duration::as_nanos ](duration: &std::time::Duration) -> (nanos: u128)
    ensures
        nanos == duration_nanos(*duration),
;

/// `SystemTime::duration_since` with `UNIX_EPOCH`: how long after the epoch
/// `time` lies, or an error where it lies before. Nothing is claimed of
/// either.
#[verifier::external_body]
fn since_epoch(time: &SystemTime) -> (elapsed: Result<std::time::Duration, SystemTimeError>) {
    time.duration_since(UNIX_EPOCH)
}

/// The current time in whole nanoseconds since the Unix epoch; `None` on a
/// machine whose clock stands before the epoch.
pub(crate) fn now() -> (nanos: Option<u128>) {
    let time = SystemTime::now();
    nanos_since_epoch(since_epoch(&time))
}

/// The whole nanoseconds in a std duration (`Duration::as_nanos`).
pub uninterp spec fn duration_nanos(duration: std::time::Duration) -> u128;

/// Reads the answer to how long after the epoch a time lies: the whole
/// nanoseconds of the duration where the time lies after the epoch, `None`
/// where it lies before.
pub fn nanos_since_epoch(elapsed: Result<std::time::Duration, SystemTimeError>) -> (nanos: Option<u128>)
    ensures
        nanos == (match elapsed {
            Ok(duration) => Some(duration_nanos(duration)),
            Err(_) => None,
        }),
{
    match elapsed {
        Ok(duration) => Some(duration.as_nanos()),
        Err(_) => None,
    }
}

} // verus!
