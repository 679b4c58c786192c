//! What the native mutex and condition variable operations come to, and the point
//! in time at which a wait ends.
use crate::clock::get_time;
use vstd::prelude::*;

verus! {

/// The longest wait in seconds.
pub const MAX_WAIT: usize = 1_000_000;

const MS_PER_SEC: usize = 1_000;

const NANOS_PER_MS: i32 = 1_000_000;

const NANOS_PER_SEC: i32 = 1_000_000_000;

/// What trying to take a lock comes to.
#[derive(Clone, Copy, Debug, PartialEq, Eq, Structural)]
pub enum TryLock {
    /// The lock is taken.
    Locked,
    /// Somebody else has the lock.
    Busy,
    /// The lock is in an unexpected state.
    Broken,
}

/// Whether the code `res` of a native operation that locks, unlocks, waits, signals
/// or destroys tells of an unexpected state.
pub fn is_broken(res: i32) -> (r: bool)
    ensures
        r == (res < 0),
{
    res < 0
}

/// What the code `res` of trying to take a lock tells, where `busy` is the code of
/// a lock that somebody else has.
pub fn try_lock(res: i32, busy: i32) -> (r: TryLock)
    ensures
        r is Locked <==> res == 0,
        r is Busy <==> res != 0 && res == busy,
{
    if res == 0 {
        TryLock::Locked
    } else if res == busy {
        TryLock::Busy
    } else {
        TryLock::Broken
    }
}

/// Whether the code `res` of a wait with a timeout tells of an unexpected state,
/// where `timed_out` is the code of a wait that ended with its timeout.
pub fn is_timed_wait_broken(res: i32, timed_out: i32) -> (r: bool)
    ensures
        r == (res != 0 && res != timed_out),
{
    !(res == 0 || res == timed_out)
}

/// The nanoseconds that are added to the whole seconds of a wait of `ms`
/// milliseconds.
pub open spec fn extra_nanos(ms: usize) -> int {
    (ms & 1000) + 1_000_000
}

/// The whole seconds of a wait of `ms` milliseconds.
pub open spec fn whole_seconds(ms: usize) -> int {
    if ms / 1000 > MAX_WAIT {
        MAX_WAIT as int
    } else {
        ms as int / 1000
    }
}

/// The point in time, in nanoseconds, at which a wait of `ms` milliseconds ends
/// that begins at `now`.
pub open spec fn wait_end(now: (i64, i32), ms: usize) -> int {
    (now.0 + whole_seconds(ms)) * 1_000_000_000 + now.1 + extra_nanos(ms)
}

/// The first point in time, in nanoseconds, whose seconds do not fit.
pub open spec fn end_of_time() -> int {
    (i64::MAX + 1) * 1_000_000_000
}

/// `r` is the end of a wait of `ms` milliseconds that begins at `now`, in seconds
/// and nanoseconds, or `None` where the seconds do not fit.
pub open spec fn ends_at(now: (i64, i32), ms: usize, r: Option<(i64, i32)>) -> bool {
    match r {
        Some(end) => 0 <= end.1 < 1_000_000_000 && end.0 * 1_000_000_000 + end.1 == wait_end(
            now,
            ms,
        ),
        None => wait_end(now, ms) >= end_of_time(),
    }
}

/// The whole seconds and the extra nanoseconds of a wait of `ms` milliseconds.
fn parts_of_wait(ms: usize) -> (r: (i64, i32))
    ensures
        r.0 == whole_seconds(ms),
        r.1 == extra_nanos(ms),
        0 <= r.0 <= 1_000_000,
        1_000_000 <= r.1 <= 1_001_000,
{
    let mut sec: usize = ms / MS_PER_SEC;
    assert((ms & 1000) <= 1000) by (bit_vector);
    let nsec: i32 = (ms & MS_PER_SEC) as i32 + NANOS_PER_MS;
    if sec > MAX_WAIT {
        sec = MAX_WAIT;
    }
    (sec as i64, nsec)
}

/// The point in time, in seconds and nanoseconds, at which a wait of `ms`
/// milliseconds ends that begins at `now`.
pub fn ms_to_abs_from(now: (i64, i32), ms: usize) -> (r: (i64, i32))
    requires
        0 <= now.1 < 1_000_000_000,
        wait_end(now, ms) < end_of_time(),
    ensures
        0 <= r.1 < 1_000_000_000,
        r.0 * 1_000_000_000 + r.1 == wait_end(now, ms),
{
    let (sec, nsec) = parts_of_wait(ms);
    let mut ts: (i64, i32) = now;
    ts.0 = ts.0 + sec;
    ts.1 = ts.1 + nsec;
    if ts.1 >= NANOS_PER_SEC {
        ts.0 = ts.0 + 1;
        ts.1 = ts.1 - NANOS_PER_SEC;
    }
    ts
}

/// The point in time at which a wait of `ms` milliseconds ends that begins at `now`,
/// or `None` where its seconds do not fit.
pub fn ms_to_abs_at(now: (i64, i32), ms: usize) -> (r: Option<(i64, i32)>)
    requires
        0 <= now.1 < 1_000_000_000,
    ensures
        ends_at(now, ms, r),
{
    let (sec, nsec) = parts_of_wait(ms);
    let carry: i64 = if now.1 + nsec >= NANOS_PER_SEC {
        1
    } else {
        0
    };
    if now.0 > i64::MAX - sec - carry {
        return None;
    }
    Some(ms_to_abs_from(now, ms))
}

/// The point in time at which a wait of `ms` milliseconds ends that begins now, or
/// `None` where the wall clock stands so late that its seconds do not fit.
pub fn ms_to_abs(ms: usize) -> (r: Option<(i64, i32)>)
    ensures
        exists|now: (i64, i32)| 0 <= now.1 < 1_000_000_000 && #[trigger] ends_at(now, ms, r),
{
    let now = get_time();
    ms_to_abs_at(now, ms)
}

/// Wherever a wait begins, it ends later, and within its whole seconds, the extra
/// nanoseconds and no more.
pub proof fn law_wait_ends_later(now: (i64, i32), ms: usize, end: (i64, i32))
    requires
        0 <= now.1 < 1_000_000_000,
        ends_at(now, ms, Some(end)),
    ensures
        now.0 * 1_000_000_000 + now.1 < end.0 * 1_000_000_000 + end.1,
        end.0 * 1_000_000_000 + end.1 <= now.0 * 1_000_000_000 + now.1 + 1_000_000
            * 1_000_000_000 + 1_001_000,
{
    assert((ms & 1000) <= 1000) by (bit_vector);
}

} // verus!
