//! The wall clock.

use vstd::prelude::*;

verus! {

/// `chrono::Utc::now().timestamp_millis()`: the current time in milliseconds
/// since the Unix epoch. Nothing is claimed of the value: it is whatever the
/// system clock says. The call panics if the system clock stands before the
/// Unix epoch.
#[verifier::external_body]
fn utc_now_millis() -> (millis: i64) {
    chrono::Utc::now().timestamp_millis()
}

/// A clock reading as a timestamp: a reading before the epoch counts as 0.
pub open spec fn timestamp_of(millis: i64) -> u64 {
    if millis < 0 {
        0
    } else {
        millis as u64
    }
}

/// Turns a clock reading into a timestamp.
pub fn timestamp_from_millis(millis: i64) -> (timestamp: u64)
    ensures
        timestamp == timestamp_of(millis),
{
    if millis < 0 {
        0
    } else {
        millis as u64
    }
}

/// The current time in milliseconds since the Unix epoch, as the clock has it.
pub fn now_millis() -> i64 {
    utc_now_millis()
}

/// The current time as a timestamp.
pub fn current_timestamp() -> u64 {
    timestamp_from_millis(utc_now_millis())
}

} // verus!
