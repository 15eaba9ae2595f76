//! The wall clock, read in one place.

use vstd::prelude::*;
use std::time::{Duration, SystemTime, SystemTimeError};

verus! {

/// A point in time as the standard library holds it. Nothing inside it is
/// seen here.
#[verifier::external_type_specification]
#[verifier::external_body]
pub struct ExSystemTime(SystemTime);

/// The error of a time that lies before the point it is measured from.
/// Nothing inside it is seen here.
#[verifier::external_type_specification]
#[verifier::external_body]
pub struct ExSystemTimeError(SystemTimeError);

/// `SystemTime::now`: the time of the call, so nothing is claimed of it.
pub assume_specification[ SystemTime::now ]() -> (now: SystemTime);

/// `SystemTime::duration_since`: the time from `earlier` to `later`, or an
/// error where `earlier` is the later of the two. Nothing is claimed of it,
/// since nothing is known of either point.
pub assume_specification[ SystemTime::duration_since ](
    later: &SystemTime,
    earlier: SystemTime,
) -> (elapsed: Result<Duration, SystemTimeError>);

/// `Duration::as_millis`: the whole milliseconds of a duration. Nothing is
/// claimed of it, since nothing is known of the duration.
pub assume_specification[ Duration::as_millis ](d: &Duration) -> (millis: u128);

/// Hands out the standard library's constant `UNIX_EPOCH`, the point from
/// which the clock counts. Nothing is claimed of it.
#[verifier::external_body]
fn unix_epoch() -> (epoch: SystemTime) {
    std::time::UNIX_EPOCH
}

/// The whole milliseconds since the Unix epoch, or `None` where the clock
/// stands before it.
pub fn epoch_millis() -> Option<u128> {
    let now = SystemTime::now();
    match now.duration_since(unix_epoch()) {
        Ok(elapsed) => Some(elapsed.as_millis()),
        Err(_) => None,
    }
}

/// The reading of a clock in milliseconds: zero for a clock before the
/// epoch, and the low 64 bits of a count too large to fit.
pub fn millis_reading(since_epoch: Option<u128>) -> (r: i64)
    ensures
        since_epoch is None ==> r == 0,
        since_epoch matches Some(m) ==> m <= i64::MAX ==> r == m,
{
    match since_epoch {
        Some(m) => {
            #[verifier::truncate]
            (m as i64)
        },
        None => 0,
    }
}

/// The reading of a clock in whole seconds: zero for a clock before the
/// epoch, and the low 64 bits of a count too large to fit.
pub fn seconds_reading(since_epoch: Option<u128>) -> (r: u64)
    ensures
        since_epoch is None ==> r == 0,
        since_epoch matches Some(m) ==> m / 1000 <= u64::MAX ==> r == m / 1000,
{
    match since_epoch {
        Some(m) => {
            #[verifier::truncate]
            ((m / 1000) as u64)
        },
        None => 0,
    }
}

/// The time now in milliseconds since the Unix epoch.
pub fn unix_millis() -> i64 {
    millis_reading(epoch_millis())
}

/// The time now in whole seconds since the Unix epoch.
pub fn unix_seconds() -> u64 {
    seconds_reading(epoch_millis())
}

} // verus!
