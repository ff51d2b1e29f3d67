//! The system clock.

use vstd::prelude::*;

use crate::Timestamp;

verus! {

/// Bound on the magnitude of any instant the clock can report: `2^43` seconds.
pub const CLOCK_LIMIT: i64 = 8_796_093_022_208i64;

/// The current time, from `chrono::Utc::now` and `DateTime::timestamp`.
///
/// Nothing is claimed of the instant but its range. chrono takes the time as
/// the duration since the epoch, which is not negative, and panics when the
/// system clock stands before the epoch. It represents no date beyond the
/// year +262142, so fewer than 264 114 years of at most 366 days of 86 400
/// seconds lie between the epoch and the result.
#[verifier::external_body]
pub(crate) fn now() -> (t: Timestamp)
    ensures
        0 <= t < CLOCK_LIMIT,
{
    chrono::Utc::now().timestamp()
}

} // verus!
