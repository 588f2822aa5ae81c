//! Wall-clock readings in Unix epoch milliseconds.

use std::time::{Duration, SystemTime, UNIX_EPOCH};
use vstd::prelude::*;

verus! {

/// `std::time::SystemTime`, carried through opaquely.
#[verifier::external_type_specification]
#[verifier::external_body]
pub struct ExSystemTime(SystemTime);

/// Reads the system clock (`SystemTime::now`). Nothing is promised of the
/// reading: it depends on the machine and the moment of the call.
#[verifier::external_body]
fn system_time_now() -> SystemTime {
    SystemTime::now()
}

/// The time elapsed from the Unix epoch to `t` (`SystemTime::duration_since`),
/// or `None` when `t` lies before the epoch. Nothing more is claimed.
#[verifier::external_body]
fn since_unix_epoch(t: &SystemTime) -> Option<Duration> {
    t.duration_since(UNIX_EPOCH).ok()
}

/// The whole milliseconds of a duration (`Duration::as_millis`); nothing is
/// claimed of the value.
#[verifier::external_body]
fn duration_millis(d: &Duration) -> u128 {
    d.as_millis()
}

/// The timestamp for a clock reading in milliseconds since the Unix epoch:
/// the reading truncated to 64 bits, or 0 when the clock read before the
/// epoch (no reading).
pub fn timestamp_from_millis(reading: Option<u128>) -> (r: u64)
    ensures
        r == match reading {
            Some(m) => m as u64,
            None => 0,
        },
{
    match reading {
        Some(m) => m as u64,
        None => 0,
    }
}

/// The current Unix time in milliseconds, truncated to 64 bits; 0 when the
/// clock reads before the epoch. What the clock reads is not stated; the
/// conversion of the reading is [`timestamp_from_millis`].
pub fn current_timestamp_ms() -> u64 {
    let reading = match since_unix_epoch(&system_time_now()) {
        Some(d) => Some(duration_millis(&d)),
        None => None,
    };
    timestamp_from_millis(reading)
}

} // verus!
