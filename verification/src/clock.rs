//! The wall clock, read as whole seconds since the Unix epoch.

use vstd::prelude::*;

verus! {

/// `std::time::SystemTime`, carried through as an opaque value.
#[verifier::external_type_specification]
#[verifier::external_body]
pub struct ExSystemTime(std::time::SystemTime);

/// `std::time::SystemTimeError`, carried through as an opaque value.
#[verifier::external_type_specification]
#[verifier::external_body]
pub struct ExSystemTimeError(std::time::SystemTimeError);

/// `SystemTime::now`: the current reading of the system clock. Nothing is
/// claimed of it; two readings may differ in either direction.
#[verifier::external_body]
fn system_now() -> std::time::SystemTime {
    std::time::SystemTime::now()
}

/// `SystemTime::duration_since` against `UNIX_EPOCH`: the time elapsed since
/// the epoch, or the error std gives for a clock set before it. Nothing is
/// claimed of either.
#[verifier::external_body]
fn since_unix_epoch(moment: &std::time::SystemTime) -> Result<
    std::time::Duration,
    std::time::SystemTimeError,
> {
    moment.duration_since(std::time::UNIX_EPOCH)
}

/// `Duration::as_secs`: the whole seconds in a duration. Nothing is claimed
/// of the number.
#[verifier::external_body]
fn whole_seconds(elapsed: &std::time::Duration) -> u64 {
    elapsed.as_secs()
}

/// The current time in whole seconds since the Unix epoch, or 0 when the
/// system clock stands before the epoch.
///
/// The clock is outside the library, so the result carries no promise:
/// callers that need one take the time as an argument instead.
pub fn now_epoch() -> u64 {
    let moment = system_now();
    let reading = match since_unix_epoch(&moment) {
        Ok(elapsed) => Some(whole_seconds(&elapsed)),
        Err(_) => None,
    };
    epoch_seconds(reading)
}

/// The time to stamp with, for what the clock read: the whole seconds it
/// counted since the epoch, or 0 where it stands before the epoch and
/// counted none.
pub fn epoch_seconds(reading: Option<u64>) -> (seconds: u64)
    ensures
        seconds == match reading {
            Some(elapsed) => elapsed,
            None => 0,
        },
{
    match reading {
        Some(elapsed) => elapsed,
        None => 0,
    }
}

} // verus!
