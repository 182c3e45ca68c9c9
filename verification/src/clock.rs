//! The wall clock, read as whole seconds since the Unix epoch.

use std::time::Duration;
use std::time::SystemTime;
use std::time::SystemTimeError;
use std::time::UNIX_EPOCH;
use vstd::prelude::*;

verus! {

/// `std::time::SystemTime`, an instant of the system clock. Nothing is
/// known of what a value holds.
#[verifier::external_type_specification]
#[verifier::external_body]
pub struct ExSystemTime(SystemTime);

/// `std::time::SystemTimeError`, the error of an instant that lies before
/// the one it is measured from. Nothing is known of what a value holds.
#[verifier::external_type_specification]
#[verifier::external_body]
pub struct ExSystemTimeError(SystemTimeError);

/// Calls `SystemTime::now`. Nothing is claimed of the instant it returns.
#[verifier::external_body]
fn system_now() -> (now: SystemTime) {
    SystemTime::now()
}

/// Calls `SystemTime::duration_since` with the Unix epoch as the earlier
/// instant. Nothing is claimed of the result: it is an error when the
/// instant lies before the epoch.
#[verifier::external_body]
fn since_unix_epoch(instant: &SystemTime) -> (elapsed: Result<Duration, SystemTimeError>) {
    instant.duration_since(UNIX_EPOCH)
}

/// Calls `Duration::as_secs`. Nothing is claimed of the number it returns.
#[verifier::external_body]
fn whole_seconds(elapsed: &Duration) -> (secs: u64) {
    elapsed.as_secs()
}

/// The current time in whole seconds since the Unix epoch, or 0 when the
/// system clock stands before the epoch. The result depends on the clock,
/// so no two calls need agree.
pub fn current_unix() -> (secs: u64) {
    let now = system_now();
    let elapsed = match since_unix_epoch(&now) {
        Ok(elapsed) => Some(whole_seconds(&elapsed)),
        Err(_) => None,
    };
    timestamp_of(elapsed)
}

/// The timestamp for a reading of the clock: the whole seconds that have
/// passed since the epoch, or 0 for a clock that stands before the epoch
/// and so has no such number.
pub fn timestamp_of(since_epoch: Option<u64>) -> (secs: u64)
    ensures
        secs == match since_epoch {
            Some(elapsed) => elapsed,
            None => 0,
        },
{
    match since_epoch {
        Some(elapsed) => elapsed,
        None => 0,
    }
}

} // verus!
