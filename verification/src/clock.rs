//! The wall clock, read as whole seconds since the Unix epoch.

use std::time::{Duration, SystemTime, SystemTimeError};
use vstd::prelude::*;

verus! {

/// `std::time::SystemTime`: a reading of the system clock.
#[verifier::external_type_specification]
#[verifier::external_body]
pub struct ExSystemTime(SystemTime);

/// `std::time::SystemTimeError`: what `duration_since` gives where the
/// second reading is the later one.
#[verifier::external_type_specification]
#[verifier::external_body]
pub struct ExSystemTimeError(SystemTimeError);

/// `SystemTime::now`: the system clock's reading. Nothing is claimed of it.
pub assume_specification[ SystemTime::now ]() -> (now: SystemTime);

/// `SystemTime::duration_since`, measured from `SystemTime::UNIX_EPOCH`: the
/// time elapsed since the epoch, or an error where `t` lies before it.
/// Nothing is claimed of either.
#[verifier::external_body]
fn since_unix_epoch(t: &SystemTime) -> (elapsed: Result<Duration, SystemTimeError>) {
    t.duration_since(SystemTime::UNIX_EPOCH)
}

/// The whole seconds that a duration holds.
pub uninterp spec fn duration_secs(elapsed: Duration) -> u64;

/// `Duration::as_secs`: the whole seconds that the duration holds, which
/// depend on the duration alone. Nothing is claimed of their number.
pub assume_specification[ Duration::as_secs ](elapsed: &Duration) -> (secs: u64)
    ensures
        secs == duration_secs(*elapsed),
;

/// Reads the system clock: the whole seconds elapsed since the Unix epoch,
/// or `None` where the clock stands before the epoch. Two calls may differ,
/// so nothing is promised of the number.
pub fn unix_time() -> (secs: Option<u64>) {
    let now = SystemTime::now();
    elapsed_secs(since_unix_epoch(&now))
}

/// The whole seconds of the time elapsed since the epoch, as `unix_time`
/// gives them: those of the duration, and none where the clock stood before
/// the epoch.
pub fn elapsed_secs(elapsed: Result<Duration, SystemTimeError>) -> (secs: Option<u64>)
    ensures
        match elapsed {
            Ok(duration) => secs == Some(duration_secs(duration)),
            Err(_) => secs is None,
        },
{
    match elapsed {
        Ok(elapsed) => Some(elapsed.as_secs()),
        Err(_) => None,
    }
}

} // verus!
