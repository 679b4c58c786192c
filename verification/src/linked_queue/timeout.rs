//! What is left of a caller's willingness to wait.
use vstd::prelude::*;
use crate::clock::precise_time_ns;
use crate::duration::{whole, Duration};

verus! {

/// Nanoseconds in a millisecond.
pub const NANOS_PER_MS: u64 = 1_000_000;

/// The time that is left to wait, as of a reading of the clock.
#[derive(Clone, Copy, Debug, PartialEq, Eq)]
pub struct Timeout {
    remaining_ms: u64,
    time: u64,
}

impl Timeout {
    /// The milliseconds that are left.
    pub closed spec fn remaining(&self) -> nat {
        self.remaining_ms as nat
    }

    /// The reading of the clock, in nanoseconds, at which they were left.
    pub closed spec fn time(&self) -> nat {
        self.time as nat
    }

    /// The milliseconds that are left when the clock reads `now`.
    pub open spec fn left_at(&self, now: u64) -> int {
        let elapsed = (now - self.time()) / 1_000_000;
        if elapsed > self.remaining() {
            0
        } else {
            self.remaining() - elapsed
        }
    }

    /// The timeout has become `after` by an update when the clock reads `now`, which
    /// came to `r`: nothing is taken off where the clock went backwards.
    pub open spec fn updated(&self, now: u64, after: Timeout, r: bool) -> bool {
        &&& r <==> self.time() <= now
        &&& r ==> after.time() == now && after.remaining() == self.left_at(now)
        &&& !r ==> after == *self
    }

    /// A timeout that starts now. A negative span is read as an unsigned
    /// number of 64 bits, which never elapses in practice.
    pub fn new(remaining: Duration) -> (r: Timeout)
        ensures
            whole(remaining@, 1_000_000) >= 0 ==> r.remaining() == whole(remaining@, 1_000_000),
            whole(remaining@, 1_000_000) < 0 ==> r.remaining() == whole(remaining@, 1_000_000)
                + 0x1_0000_0000_0000_0000,
    {
        Timeout::starting(remaining, precise_time_ns())
    }

    /// A timeout that starts when the clock reads `now`.
    pub fn starting(remaining: Duration, now: u64) -> (r: Timeout)
        ensures
            r.time() == now,
            whole(remaining@, 1_000_000) >= 0 ==> r.remaining() == whole(remaining@, 1_000_000),
            whole(remaining@, 1_000_000) < 0 ==> r.remaining() == whole(remaining@, 1_000_000)
                + 0x1_0000_0000_0000_0000,
    {
        let ms: i64 = remaining.num_milliseconds();
        let remaining_ms: u64 = if ms >= 0 {
            ms as u64
        } else {
            u64::MAX - (-(ms + 1)) as u64
        };
        Timeout { remaining_ms, time: now }
    }

    /// Whether nothing is left.
    pub fn is_elapsed(&self) -> (r: bool)
        ensures
            r == (self.remaining() == 0),
    {
        self.remaining_ms == 0
    }

    /// The milliseconds that are left.
    pub fn remaining_ms(&self) -> (r: u64)
        ensures
            r == self.remaining(),
    {
        self.remaining_ms
    }

    /// Takes off the whole milliseconds up to the reading `now` of the clock.
    pub fn update_at(&mut self, now: u64)
        requires
            old(self).time() <= now,
        ensures
            final(self).time() == now,
            final(self).remaining() == old(self).left_at(now),
    {
        let elapsed: u64 = (now - self.time) / NANOS_PER_MS;
        if elapsed > self.remaining_ms {
            self.remaining_ms = 0;
        } else {
            self.remaining_ms -= elapsed;
        }
        self.time = now;
    }

    /// Takes off the whole milliseconds up to the reading `now` of the clock.
    /// Returns `false` and leaves the timeout as it is where the clock went
    /// backwards.
    pub fn update_to(&mut self, now: u64) -> (r: bool)
        ensures
            old(self).updated(now, *final(self), r),
    {
        if now < self.time {
            return false;
        }
        self.update_at(now);
        true
    }

    /// Takes off the whole milliseconds that have passed. Returns `false` and
    /// leaves the timeout as it is where the clock went backwards.
    pub fn update(&mut self) -> (r: bool)
        ensures
            exists|now: u64| #[trigger] old(self).updated(now, *final(self), r),
    {
        let now: u64 = precise_time_ns();
        self.update_to(now)
    }
}

} // verus!
