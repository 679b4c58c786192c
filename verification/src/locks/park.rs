//! Blocking and unblocking one thread.
//!
//! Each operation on a `Parker` is one indivisible step on its state. A thread that
//! parks takes the step `park_ms`; where that says so it tries to take the lock of
//! its condition variable, gives up if somebody else has it, takes the step
//! `enter`, waits where that says so, and takes the step `leave`. A thread that
//! unparks another one takes the step `unpark` and signals the condition variable
//! where that says so.
use crate::duration::{whole, Duration};
use vstd::prelude::*;

verus! {

/// The thread is not parked nor signaled for unpark.
pub const INITIAL: usize = 0;

/// The thread is currently parked.
pub const PARKED: usize = 1;

/// The thread has been signaled for unpark.
pub const UNPARK: usize = 2;

/// How long a thread is parked.
#[derive(Clone, Copy, Debug, PartialEq, Eq, Structural)]
pub enum Wait {
    /// Until it is unparked.
    Forever,
    /// Until it is unparked, or for that many milliseconds.
    Ms(usize),
}

/// What the first step of parking comes to.
#[derive(Clone, Copy, Debug, PartialEq, Eq, Structural)]
pub enum Park {
    /// There was a pending unpark: the thread goes on.
    Consumed,
    /// The thread tries to block.
    Enter(Wait),
}

/// What a parker knows of its thread.
#[derive(Clone, Copy, Debug, PartialEq, Eq, Structural)]
pub enum ParkerState {
    Initial,
    Parked,
    Unpark,
}

/// The parker of a thread.
#[derive(Debug)]
pub struct Parker {
    state: usize,
}

impl Parker {
    /// The state is one of the three.
    pub closed spec fn wf(&self) -> bool {
        self.state <= 2
    }

    /// The state.
    pub closed spec fn view(&self) -> ParkerState {
        if self.state == INITIAL {
            ParkerState::Initial
        } else if self.state == PARKED {
            ParkerState::Parked
        } else {
            ParkerState::Unpark
        }
    }

    /// The parker of a thread that is neither parked nor signaled.
    pub fn new() -> (r: Parker)
        ensures
            r.wf(),
            r@ is Initial,
    {
        Parker { state: INITIAL }
    }

    /// The first step of parking for `timeout_ms` milliseconds, or without a limit
    /// if that is 0: a pending unpark is consumed.
    pub fn park_ms(&mut self, timeout_ms: usize) -> (r: Park)
        requires
            old(self).wf(),
        ensures
            final(self).wf(),
            (final(self)@, r is Consumed) == parked(old(self)@),
            r matches Park::Enter(wait) ==> wait == (if timeout_ms == 0 {
                Wait::Forever
            } else {
                Wait::Ms(timeout_ms)
            }),
    {
        if self.state == UNPARK {
            self.state = PARKED;
            return Park::Consumed;
        }
        if timeout_ms == 0 {
            Park::Enter(Wait::Forever)
        } else {
            Park::Enter(Wait::Ms(timeout_ms))
        }
    }

    /// The second step, inside the lock: whether the thread waits. It does not if
    /// an unpark came in between, which is consumed.
    pub fn enter(&mut self) -> (r: bool)
        requires
            old(self).wf(),
        ensures
            final(self).wf(),
            (final(self)@, !r) == entered(old(self)@),
    {
        let prev: usize = self.state;
        self.state = PARKED;
        prev != UNPARK
    }

    /// The last step, after the wait.
    pub fn leave(&mut self)
        ensures
            final(self).wf(),
            final(self)@ is Initial,
    {
        self.state = INITIAL;
    }

    /// Signals the thread for unpark. Returns whether its condition variable has to
    /// be signaled.
    pub fn unpark(&mut self) -> (r: bool)
        requires
            old(self).wf(),
        ensures
            final(self).wf(),
            (final(self)@, r) == unparked(old(self)@),
    {
        let prev: usize = self.state;
        self.state = UNPARK;
        prev == PARKED
    }
}

/// The first step of parking a thread until it is unparked.
pub fn park(p: &mut Parker) -> (r: Park)
    requires
        old(p).wf(),
    ensures
        final(p).wf(),
        (final(p)@, r is Consumed) == parked(old(p)@),
        r matches Park::Enter(wait) ==> wait is Forever,
{
    p.park_ms(0)
}

/// The milliseconds for which a thread is parked with the timeout `timeout`. A
/// negative timeout, or one that does not fit, is the longest there is.
pub open spec fn timeout_ms(timeout: Duration) -> usize {
    let ms = whole(timeout@, 1_000_000);
    if 0 <= ms <= usize::MAX {
        ms as usize
    } else {
        usize::MAX
    }
}

/// The first step of parking a thread until it is unparked, or for `timeout`.
pub fn park_timed(p: &mut Parker, timeout: Duration) -> (r: Park)
    requires
        old(p).wf(),
    ensures
        final(p).wf(),
        (final(p)@, r is Consumed) == parked(old(p)@),
        r matches Park::Enter(wait) ==> wait == (if timeout_ms(timeout) == 0 {
            Wait::Forever
        } else {
            Wait::Ms(timeout_ms(timeout))
        }),
{
    let ms: i64 = timeout.num_milliseconds();
    if ms >= 0 && ms as u64 <= usize::MAX as u64 {
        p.park_ms(ms as usize)
    } else {
        p.park_ms(usize::MAX)
    }
}

/// The state after an unpark, and whether the condition variable is signaled.
pub open spec fn unparked(s: ParkerState) -> (ParkerState, bool) {
    (ParkerState::Unpark, s is Parked)
}

/// The state after the first step of parking, and whether the thread goes on.
pub open spec fn parked(s: ParkerState) -> (ParkerState, bool) {
    (
        if s is Unpark {
            ParkerState::Parked
        } else {
            s
        },
        s is Unpark,
    )
}

/// The state after the second step of parking, and whether the thread goes on.
pub open spec fn entered(s: ParkerState) -> (ParkerState, bool) {
    (ParkerState::Parked, s is Unpark)
}

/// An unpark is not lost: one that comes before a thread parks lets it go on at
/// once, one that comes between its two steps does so too, and one that comes while
/// it waits has its condition variable signaled.
pub proof fn law_unpark_is_not_lost(s: ParkerState)
    ensures
        parked(unparked(s).0).1,
        entered(unparked(parked(s).0).0).1,
        unparked(entered(s).0).1,
{
}

/// Several unparks before a thread parks count as one.
pub proof fn law_unparks_do_not_add_up(s: ParkerState)
    ensures
        unparked(unparked(s).0).0 == unparked(s).0,
        !unparked(unparked(s).0).1,
        !parked(parked(unparked(unparked(s).0).0).0).1,
{
}

} // verus!
