//! The clocks of the machine.
use vstd::prelude::*;

verus! {

/// Reads `time::precise_time_ns`: the nanoseconds since an unspecified epoch.
/// Nothing is claimed of the reading.
#[verifier::external_body]
pub(crate) fn precise_time_ns() -> u64 {
    time::precise_time_ns()
}

/// Reads `time::get_time`: the seconds since the epoch of the wall clock, and the
/// nanoseconds of the second, which are fewer than a whole second. Nothing else is
/// claimed of the reading.
#[verifier::external_body]
pub(crate) fn get_time() -> (r: (i64, i32))
    ensures
        0 <= r.1 < 1_000_000_000,
{
    let now = time::get_time();
    (now.sec, now.nsec)
}

} // verus!
