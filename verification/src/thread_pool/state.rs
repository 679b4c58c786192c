//! The control state of a thread pool.
//!
//! One number packs two fields: the lifecycle of the pool in its low bits, and
//! the number of workers that have been permitted to start and not permitted
//! to stop above them.
use vstd::prelude::*;

verus! {

/// The number of bits that the lifecycle takes.
pub const LIFECYCLE_BITS: u32 = 3;

/// The bits that hold the lifecycle.
pub const LIFECYCLE_MASK: u32 = 7;

/// One worker, as it stands in the number.
pub const WORKER_ONE: u32 = 8;

/// The largest number of workers that can be counted.
pub const CAPACITY: u32 = 536_870_911;

/// The lifecycle of a thread pool. It only ever moves down this list.
#[derive(Debug, Clone, Copy, PartialEq, Eq, Structural)]
pub enum Lifecycle {
    /// Accepts new tasks and processes queued tasks.
    Running,
    /// Does not accept new tasks, but processes queued tasks.
    Shutdown,
    /// Neither accepts new tasks nor processes queued tasks.
    Stop,
    /// All tasks have ended and no worker is left.
    Tidying,
    /// The pool has ended.
    Terminated,
}

impl Lifecycle {
    /// The place of the lifecycle in its order.
    pub open spec fn rank(self) -> u32 {
        match self {
            Lifecycle::Running => 0,
            Lifecycle::Shutdown => 1,
            Lifecycle::Stop => 2,
            Lifecycle::Tidying => 3,
            Lifecycle::Terminated => 4,
        }
    }

    /// The lifecycle at a place of the order.
    pub open spec fn of_rank(rank: u32) -> Lifecycle {
        match rank {
            0 => Lifecycle::Running,
            1 => Lifecycle::Shutdown,
            2 => Lifecycle::Stop,
            3 => Lifecycle::Tidying,
            _ => Lifecycle::Terminated,
        }
    }

    /// Whether no queued task is processed any more.
    pub open spec fn stopped(self) -> bool {
        self.rank() >= Lifecycle::Stop.rank()
    }

    /// The number that stands for the lifecycle.
    pub fn as_u32(self) -> (r: u32)
        ensures
            r == self.rank(),
    {
        match self {
            Lifecycle::Running => 0,
            Lifecycle::Shutdown => 1,
            Lifecycle::Stop => 2,
            Lifecycle::Tidying => 3,
            Lifecycle::Terminated => 4,
        }
    }

    /// The lifecycle that a number stands for.
    pub fn from_u32(val: u32) -> (r: Lifecycle)
        requires
            val <= 4,
        ensures
            r.rank() == val,
            r == Lifecycle::of_rank(val),
    {
        match val {
            0 => Lifecycle::Running,
            1 => Lifecycle::Shutdown,
            2 => Lifecycle::Stop,
            3 => Lifecycle::Tidying,
            _ => Lifecycle::Terminated,
        }
    }

    /// Whether no queued task is processed any more.
    pub fn is_stopped(self) -> (r: bool)
        ensures
            r == self.stopped(),
    {
        self.as_u32() >= Lifecycle::Stop.as_u32()
    }
}

/// What the control state says.
pub ghost struct StateView {
    pub lifecycle: Lifecycle,
    pub workers: nat,
}

/// Whether the low bits of `num` name a lifecycle.
pub open spec fn valid_word(num: u32) -> bool {
    (num & LIFECYCLE_MASK) <= 4
}

/// The control state.
#[derive(Debug, Clone, Copy, PartialEq, Eq, Structural)]
pub struct State {
    state: u32,
}

proof fn lemma_set_lifecycle(num: u32, rank: u32)
    requires
        rank <= 4,
    ensures
        ((num & !LIFECYCLE_MASK) | rank) & LIFECYCLE_MASK == rank,
        ((num & !LIFECYCLE_MASK) | rank) >> LIFECYCLE_BITS == num >> LIFECYCLE_BITS,
{
    let w = (num & !7u32) | rank;
    assert(w & 7u32 == rank && w >> 3u32 == num >> 3u32) by (bit_vector)
        requires
            w == (num & !7u32) | rank,
            rank <= 4,
    ;
}

proof fn lemma_of_lifecycle(rank: u32)
    requires
        rank <= 4,
    ensures
        rank & LIFECYCLE_MASK == rank,
        rank >> LIFECYCLE_BITS == 0,
{
    assert(rank & 7u32 == rank && rank >> 3u32 == 0) by (bit_vector)
        requires
            rank <= 4,
    ;
}

proof fn lemma_add_worker(num: u32)
    requires
        (num >> LIFECYCLE_BITS) < CAPACITY,
    ensures
        num + WORKER_ONE <= u32::MAX,
        ((num + WORKER_ONE) as u32) & LIFECYCLE_MASK == num & LIFECYCLE_MASK,
        ((num + WORKER_ONE) as u32) >> LIFECYCLE_BITS == (num >> LIFECYCLE_BITS) + 1,
{
    assert(num + 8 <= 0xffff_ffffu32) by (bit_vector)
        requires
            (num >> 3u32) < 536_870_911u32,
    ;
    let w = (num + 8) as u32;
    assert(w & 7u32 == num & 7u32 && w >> 3u32 == (num >> 3u32) + 1) by (bit_vector)
        requires
            w == num + 8,
    ;
}

proof fn lemma_sub_worker(num: u32)
    requires
        (num >> LIFECYCLE_BITS) >= 1,
    ensures
        num >= WORKER_ONE,
        ((num - WORKER_ONE) as u32) & LIFECYCLE_MASK == num & LIFECYCLE_MASK,
        ((num - WORKER_ONE) as u32) >> LIFECYCLE_BITS == (num >> LIFECYCLE_BITS) - 1,
{
    assert(num >= 8u32) by (bit_vector)
        requires
            (num >> 3u32) >= 1,
    ;
    let w = (num - 8) as u32;
    assert(w & 7u32 == num & 7u32 && w >> 3u32 == (num >> 3u32) - 1) by (bit_vector)
        requires
            w == num - 8,
            (num >> 3u32) >= 1,
    ;
}

impl State {
    /// Whether the number names a lifecycle.
    pub closed spec fn wf(self) -> bool {
        valid_word(self.state)
    }

    /// The number itself.
    pub closed spec fn word(self) -> u32 {
        self.state
    }

    /// What the number says.
    pub closed spec fn view(&self) -> StateView {
        StateView {
            lifecycle: Lifecycle::of_rank(self.state & LIFECYCLE_MASK),
            workers: (self.state >> LIFECYCLE_BITS) as nat,
        }
    }

    /// The state that a number holds.
    pub fn load(num: u32) -> (r: State)
        requires
            valid_word(num),
        ensures
            r.wf(),
            r.word() == num,
    {
        State { state: num }
    }

    /// The state of a pool in `lifecycle` without workers.
    pub fn of(lifecycle: Lifecycle) -> (r: State)
        ensures
            r.wf(),
            r@ == (StateView { lifecycle, workers: 0 }),
    {
        proof {
            lemma_of_lifecycle(lifecycle.rank());
        }
        State { state: lifecycle.as_u32() }
    }

    /// The lifecycle.
    pub fn lifecycle(&self) -> (r: Lifecycle)
        requires
            self.wf(),
        ensures
            r == self@.lifecycle,
    {
        Lifecycle::from_u32(self.state & LIFECYCLE_MASK)
    }

    /// The state with another lifecycle.
    pub fn with_lifecycle(&self, lifecycle: Lifecycle) -> (r: State)
        ensures
            r.wf(),
            r@ == (StateView { lifecycle, ..self@ }),
    {
        proof {
            lemma_set_lifecycle(self.state, lifecycle.rank());
        }
        State { state: (self.state & !LIFECYCLE_MASK) | lifecycle.as_u32() }
    }

    /// The number of workers.
    pub fn worker_count(&self) -> (r: u32)
        ensures
            r == self@.workers,
            r <= CAPACITY,
    {
        proof {
            let num = self.state;
            assert(num >> 3u32 <= 536_870_911u32) by (bit_vector);
        }
        self.state >> LIFECYCLE_BITS
    }

    /// The state with one worker more.
    pub fn with_worker(&self) -> (r: State)
        requires
            self@.workers < CAPACITY,
        ensures
            r.wf() == self.wf(),
            r@ == (StateView { workers: self@.workers + 1, ..self@ }),
    {
        proof {
            lemma_add_worker(self.state);
        }
        State { state: self.state + WORKER_ONE }
    }

    /// The state with one worker less.
    pub fn without_worker(&self) -> (r: State)
        requires
            self@.workers >= 1,
        ensures
            r.wf() == self.wf(),
            r@ == (StateView { workers: (self@.workers - 1) as nat, ..self@ }),
    {
        proof {
            lemma_sub_worker(self.state);
        }
        State { state: self.state - WORKER_ONE }
    }

    /// Whether the pool accepts tasks.
    pub fn is_running(&self) -> (r: bool)
        requires
            self.wf(),
        ensures
            r == (self@.lifecycle is Running),
    {
        self.lifecycle() == Lifecycle::Running
    }

    /// Whether the pool has ended.
    pub fn is_terminated(&self) -> (r: bool)
        requires
            self.wf(),
        ensures
            r == (self@.lifecycle is Terminated),
    {
        self.lifecycle() == Lifecycle::Terminated
    }

    /// The number itself.
    pub fn as_u32(&self) -> (r: u32)
        ensures
            r == self.word(),
            self.wf() == valid_word(r),
    {
        self.state
    }

    /// The number itself, as a machine word.
    pub fn as_usize(&self) -> (r: usize)
        ensures
            r == self.word(),
    {
        self.state as usize
    }
}

/// A state that is written out as a number and read back is the same state.
pub proof fn law_state_round_trip(s: State, num: u32, back: State)
    requires
        s.wf(),
        call_ensures(State::as_u32, (&s,), num),
        call_ensures(State::load, (num,), back),
    ensures
        back == s,
{
}

/// The control state as a cell that is changed in single steps.
pub struct AtomicState {
    atomic: State,
}

impl AtomicState {
    /// Whether the number names a lifecycle.
    pub closed spec fn wf(self) -> bool {
        self.atomic.wf()
    }

    /// What the number says.
    pub closed spec fn view(&self) -> StateView {
        self.atomic@
    }

    /// The state that the cell holds.
    pub closed spec fn held(self) -> State {
        self.atomic
    }

    /// The state in a cell says what the cell says.
    pub proof fn lemma_held(self)
        ensures
            self.held().wf() == self.wf(),
            self.held()@ == self@,
    {
    }

    /// The cell of a pool in `lifecycle` without workers.
    pub fn new(lifecycle: Lifecycle) -> (r: AtomicState)
        ensures
            r.wf(),
            r@ == (StateView { lifecycle, workers: 0 }),
    {
        AtomicState { atomic: State::of(lifecycle) }
    }

    /// The state that the cell holds.
    pub fn load(&self) -> (r: State)
        ensures
            r == self.held(),
            r.wf() == self.wf(),
            r@ == self@,
    {
        self.atomic
    }

    /// Puts `val` in the cell if it holds `expect`, and returns what it held.
    pub fn compare_and_swap(&mut self, expect: State, val: State) -> (r: State)
        ensures
            r == old(self).held(),
            r.wf() == old(self).wf(),
            r@ == old(self)@,
            old(self).held() == expect ==> final(self).held() == val && final(self).wf()
                == val.wf() && final(self)@ == val@,
            old(self).held() != expect ==> *final(self) == *old(self),
    {
        let actual = self.atomic;
        if actual == expect {
            self.atomic = val;
        }
        actual
    }

    /// Counts one worker more if the cell holds `expect`, and says whether it
    /// did.
    pub fn compare_and_inc_worker_count(&mut self, expect: State) -> (r: bool)
        requires
            expect@.workers < CAPACITY,
        ensures
            r == (old(self).held() == expect),
            r ==> final(self).wf() == old(self).wf() && final(self)@ == (StateView {
                workers: old(self)@.workers + 1,
                ..old(self)@
            }),
            !r ==> *final(self) == *old(self),
    {
        let next = expect.with_worker();
        self.compare_and_swap(expect, next) == expect
    }

    /// Counts one worker less if the cell holds `expect`, and says whether it
    /// did.
    pub fn compare_and_dec_worker_count(&mut self, expect: State) -> (r: bool)
        requires
            expect@.workers >= 1,
        ensures
            r == (old(self).held() == expect),
            r ==> final(self).wf() == old(self).wf() && final(self)@ == (StateView {
                workers: (old(self)@.workers - 1) as nat,
                ..old(self)@
            }),
            !r ==> *final(self) == *old(self),
    {
        let next = expect.without_worker();
        self.compare_and_swap(expect, next) == expect
    }

    /// Counts one worker less, and returns the state before.
    pub fn fetch_dec_worker_count(&mut self) -> (r: State)
        requires
            old(self)@.workers >= 1,
        ensures
            r == old(self).held(),
            r.wf() == old(self).wf(),
            r@ == old(self)@,
            final(self).wf() == old(self).wf(),
            final(self)@ == (StateView { workers: (old(self)@.workers - 1) as nat, ..old(self)@ }),
    {
        let prev = self.atomic;
        self.atomic = prev.without_worker();
        prev
    }

    /// Moves the cell on to `Terminated`.
    pub fn transition_to_terminated(&mut self)
        ensures
            final(self).wf(),
            final(self)@ == (StateView { lifecycle: Lifecycle::Terminated, ..old(self)@ }),
    {
        let mut state = self.load();
        loop
            invariant
                *self == *old(self),
            decreases (if state == self.held() { 0int } else { 1int }),
        {
            let next = state.with_lifecycle(Lifecycle::Terminated);
            let actual = self.compare_and_swap(state, next);
            if state == actual {
                return;
            }
            state = actual;
        }
    }
}

/// The lifecycles are counted in their order, and no number stands for two.
pub proof fn law_lifecycles_are_counted(
    l: Lifecycle,
    num: u32,
    back: Lifecycle,
    stopped: bool,
)
    requires
        call_ensures(Lifecycle::as_u32, (l,), num),
        call_ensures(Lifecycle::from_u32, (num,), back),
        call_ensures(Lifecycle::is_stopped, (l,), stopped),
    ensures
        back == l,
        num == (if l is Running {
            0u32
        } else if l is Shutdown {
            1
        } else if l is Stop {
            2
        } else if l is Tidying {
            3
        } else {
            4
        }),
        stopped <==> l is Stop || l is Tidying || l is Terminated,
{
}

/// The two parts of the control state are changed apart: another lifecycle keeps the number of
/// workers, and another number of workers the lifecycle.
pub proof fn law_parts_of_the_state_are_kept_apart(
    s: State,
    l: Lifecycle,
    moved: State,
    more: State,
    less: State,
    fresh: State,
    lifecycle: Lifecycle,
    workers: u32,
    running: bool,
    ended: bool,
)
    requires
        s.wf(),
        s@.workers >= 1,
        call_ensures(State::with_lifecycle, (&s, l), moved),
        call_ensures(State::with_worker, (&s,), more),
        call_ensures(State::without_worker, (&s,), less),
        call_ensures(State::of, (l,), fresh),
        call_ensures(State::lifecycle, (&s,), lifecycle),
        call_ensures(State::worker_count, (&s,), workers),
        call_ensures(State::is_running, (&s,), running),
        call_ensures(State::is_terminated, (&s,), ended),
    ensures
        moved@.lifecycle == l && moved@.workers == s@.workers,
        more@.lifecycle == s@.lifecycle && more@.workers == s@.workers + 1,
        less@.lifecycle == s@.lifecycle && less@.workers + 1 == s@.workers,
        fresh@.lifecycle == l && fresh@.workers == 0,
        lifecycle == s@.lifecycle && workers == s@.workers,
        running <==> s@.lifecycle is Running,
        ended <==> s@.lifecycle is Terminated,
        moved.wf() && more.wf() && less.wf() && fresh.wf(),
{
}

/// The steps on the control state: a swap happens exactly where the state is the one that was read,
/// and workers are counted one by one.
pub proof fn law_steps_on_the_state(
    cas: &mut AtomicState,
    expect: State,
    val: State,
    seen: State,
    inc: &mut AtomicState,
    counted: bool,
    dec: &mut AtomicState,
    discounted: bool,
    off: &mut AtomicState,
    before: State,
    end: &mut AtomicState,
    any: &AtomicState,
    loaded: State,
)
    requires
        call_ensures(AtomicState::compare_and_swap, (cas, expect, val), seen),
        call_ensures(AtomicState::compare_and_inc_worker_count, (inc, expect), counted),
        old(dec)@.workers >= 1,
        call_ensures(AtomicState::compare_and_dec_worker_count, (dec, expect), discounted),
        old(off)@.workers >= 1,
        call_ensures(AtomicState::fetch_dec_worker_count, (off,), before),
        call_ensures(AtomicState::transition_to_terminated, (end,), ()),
        call_ensures(AtomicState::load, (any,), loaded),
    ensures
        seen == old(cas).held(),
        final(cas).held() == (if old(cas).held() == expect {
            val
        } else {
            old(cas).held()
        }),
        counted <==> old(inc).held() == expect,
        final(inc)@.lifecycle == old(inc)@.lifecycle && final(inc)@.workers == old(inc)@.workers
            + (if counted {
            1int
        } else {
            0
        }),
        discounted <==> old(dec).held() == expect,
        final(dec)@.lifecycle == old(dec)@.lifecycle && final(dec)@.workers == old(dec)@.workers
            - (if discounted {
            1int
        } else {
            0
        }),
        before@ == old(off)@,
        final(off)@.lifecycle == old(off)@.lifecycle && final(off)@.workers + 1 == old(
            off,
        )@.workers,
        final(end)@.lifecycle is Terminated && final(end)@.workers == old(end)@.workers,
        loaded == any.held() && loaded@ == any@,
{
}

} // verus!
