use std::time::{Duration, SystemTime, SystemTimeError, UNIX_EPOCH};

use vstd::prelude::*;

verus! {

#[verifier::external_type_specification]
#[verifier::external_body]
pub struct ExSystemTime(SystemTime);

#[verifier::external_type_specification]
#[verifier::external_body]
pub struct ExSystemTimeError(SystemTimeError);

/// Relies on std's SystemTime::now: reads the system clock.
#[verifier::external_body]
fn system_now() -> SystemTime {
    SystemTime::now()
}

/// Relies on std's SystemTime::duration_since: the time elapsed since the
/// Unix epoch, or an error when the clock reads earlier than the epoch.
#[verifier::external_body]
fn since_epoch(t: &SystemTime) -> Result<Duration, SystemTimeError> {
    t.duration_since(UNIX_EPOCH)
}

/// The time elapsed since the Unix epoch, by the system clock; `None` when
/// the clock reads earlier than the epoch.
pub fn now() -> (r: Option<Duration>) {
    match since_epoch(&system_now()) {
        Ok(d) => Some(d),
        Err(_) => None,
    }
}

} // verus!
