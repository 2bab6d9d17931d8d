//! The wall clock, read in one place.

use vstd::prelude::*;

verus! {

/// No reading of the clock lies further than this many seconds from the
/// epoch: two to the power of fifty.
pub const CLOCK_BOUND: i64 = 1_125_899_906_842_624;

/// `OffsetDateTime::now_utc().unix_timestamp()`: seconds since the Unix
/// epoch. Which moment comes back is open; its distance from the epoch is
/// bounded, because the `time` crate numbers days in 32 bits and a day has
/// fewer than two to the power of seventeen seconds.
#[verifier::external_body]
pub(crate) fn unix_now() -> (t: i64)
    ensures
        -CLOCK_BOUND <= t <= CLOCK_BOUND,
{
    time::OffsetDateTime::now_utc().unix_timestamp()
}

} // verus!
