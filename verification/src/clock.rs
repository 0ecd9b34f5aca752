//! The wall clock, read in whole seconds since the Unix epoch.

use vstd::prelude::*;

verus! {

/// The first second that no reading of the clock can reach: two to the
/// power 47, far beyond the last year that a date can hold.
pub const CLOCK_END: i64 = 0x8000_0000_0000;

/// A second that the clock can read: not before the epoch, and before
/// `CLOCK_END`.
pub open spec fn is_clock_reading(now: int) -> bool {
    0 <= now < CLOCK_END
}

/// Reads the system clock through `chrono::Utc::now` and returns its
/// `timestamp()`.
///
/// Trusted: the range of the reading. `Utc::now` counts from the Unix epoch
/// and hands out a date, whose year is at most 262142, so the second is
/// below eight and a half million million. Within that range nothing is
/// claimed of the value: two readings may differ in either direction, and
/// the library's rules are stated for every reading.
#[verifier::external_body]
pub(crate) fn unix_now() -> (now: i64)
    ensures
        is_clock_reading(now as int),
{
    chrono::Utc::now().timestamp()
}

} // verus!
