//! Creation times, held as whole seconds since the Unix epoch.

use vstd::prelude::*;

verus! {

/// The earliest moment the calendar can represent, in seconds since the
/// epoch: midnight before January 1 of the year -262143.
pub const MIN_TIMESTAMP: i64 = -8_334_601_228_800;

/// The latest moment the calendar can represent, in seconds since the
/// epoch: the last second of December 31 of the year 262142.
pub const MAX_TIMESTAMP: i64 = 8_210_266_876_799;

/// Whether the calendar can represent the moment `seconds` after the epoch.
pub open spec fn representable(seconds: int) -> bool {
    MIN_TIMESTAMP <= seconds <= MAX_TIMESTAMP
}

/// The moment a daemon timestamp stands for: itself where the calendar can
/// represent it, else the epoch.
pub open spec fn moment_of(seconds: int) -> int {
    if representable(seconds) {
        seconds
    } else {
        0
    }
}

/// `chrono::DateTime::from_timestamp` with no nanoseconds, read back with
/// `DateTime::timestamp`. The contract claims that chrono builds a moment
/// exactly for the seconds between `MIN_TIMESTAMP` and `MAX_TIMESTAMP`, and
/// that the moment it builds reads back as the same number of seconds.
#[verifier::external_body]
fn calendar_seconds(seconds: i64) -> (moment: Option<i64>)
    ensures
        moment == (if representable(seconds as int) {
            Some(seconds)
        } else {
            None::<i64>
        }),
{
    match chrono::DateTime::from_timestamp(seconds, 0) {
        Some(moment) => Some(moment.timestamp()),
        None => None,
    }
}

/// Brings a daemon timestamp into the calendar's range: a timestamp the
/// calendar cannot represent becomes the epoch.
pub fn normalize_timestamp(seconds: i64) -> (moment: i64)
    ensures
        moment == moment_of(seconds as int),
        representable(moment as int),
{
    match calendar_seconds(seconds) {
        Some(moment) => moment,
        None => 0,
    }
}

} // verus!
