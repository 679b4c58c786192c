//! The state word as a cell that is changed in single steps.
use super::state::{Lifecycle, State, StateView};
use vstd::prelude::*;

verus! {

/// What the state word says once a value has been taken out of it, by a
/// callback or not.
pub open spec fn consumed(
    s: StateView,
    callback: bool,
) -> StateView {
    StateView {
        lifecycle: if s.lifecycle is ReadyProducerWait {
            Lifecycle::ProducerWait
        } else {
            Lifecycle::New
        },
        consuming: s.consuming || callback,
        ..s
    }
}

/// What the state word says once the producer has been told of the consumer, by
/// a callback or not.
pub open spec fn produced(
    s: StateView,
    callback: bool,
) -> StateView {
    StateView {
        lifecycle: if s.lifecycle is Canceled || s.lifecycle is ProducerNotifyCanceled {
            Lifecycle::Canceled
        } else {
            Lifecycle::ConsumerWait
        },
        producing: s.producing || callback,
        ..s
    }
}

/// Whether the producer can be told of what the consumer did.
pub open spec fn producible(l: Lifecycle) -> bool {
    l is ConsumerWait || l is ProducerNotify || l is ProducerNotifyCanceled || l is Canceled
}

/// The cell of the state word.
pub struct AtomicState {
    atomic: State,
}

impl AtomicState {
    /// Whether the word names a lifecycle.
    pub closed spec fn wf(self) -> bool {
        self.atomic.wf()
    }

    /// What the word says.
    pub closed spec fn view(&self) -> StateView {
        self.atomic@
    }

    /// The state that the cell holds.
    pub closed spec fn held(self) -> State {
        self.atomic
    }

    /// The state in a well-formed cell is well-formed, and says what the cell
    /// says.
    pub proof fn lemma_held(self)
        ensures
            self.held().wf() == self.wf(),
            self.held()@ == self@,
    {
    }

    /// The cell of a fresh value with one handle.
    pub fn new() -> (r: AtomicState)
        ensures
            r.wf(),
            r@ == (StateView {
                lifecycle: Lifecycle::New,
                consuming: false,
                producing: false,
                refs: 1,
            }),
    {
        AtomicState { atomic: State::new() }
    }

    /// The cell of a value that starts in `lifecycle`.
    pub fn of(lifecycle: Lifecycle) -> (r: AtomicState)
        ensures
            r.wf(),
            r@ == (StateView {
                lifecycle,
                consuming: false,
                producing: false,
                refs: 1,
            }),
    {
        AtomicState { atomic: State::new().with_lifecycle(lifecycle) }
    }

    /// The state that the cell holds.
    pub fn load(&self) -> (r: State)
        ensures
            r == self.held(),
            r.wf() == self.wf(),
            r@ == self@,
    {
        self.atomic
    }

    /// Puts `val` in the cell if it holds `expect`, and returns what it held.
    pub fn compare_and_swap(&mut self, expect: State, val: State) -> (r: State)
        ensures
            r == old(self).held(),
            r.wf() == old(self).wf(),
            r@ == old(self)@,
            final(self).held() == if old(self).held() == expect {
                val
            } else {
                old(self).held()
            },
            old(self).held() == expect ==> final(self).wf() == val.wf() && final(self)@ == val@,
            old(self).held() != expect ==> *final(self) == *old(self),
    {
        let actual = self.atomic;
        if actual == expect {
            self.atomic = val;
        }
        actual
    }

    /// Counts one handle more.
    pub fn ref_inc(&mut self)
        requires
            old(self)@.refs < super::state::max_refs(),
        ensures
            final(self).wf() == old(self).wf(),
            final(self)@ == (StateView { refs: old(self)@.refs + 1, ..old(self)@ }),
    {
        self.atomic = self.atomic.ref_inc();
    }

    /// Counts one handle less, and returns how many there were.
    pub fn ref_dec(&mut self) -> (r: usize)
        requires
            old(self)@.refs >= 1,
        ensures
            r == old(self)@.refs,
            final(self).wf() == old(self).wf(),
            final(self)@ == (StateView {
                refs: (old(self)@.refs - 1) as nat,
                ..old(self)@
            }),
    {
        let prev: usize = self.atomic.ref_count();
        self.atomic = self.atomic.ref_dec();
        prev
    }

    /// Notes that the value is taken out, starting from the state `curr` that
    /// was read last, which the cell may have left since.
    pub fn consume(&mut self, curr: State, callback: bool) -> (r: State)
        requires
            old(self).wf(),
            old(self)@.lifecycle.holds_value(),
            curr.wf(),
            curr@.lifecycle.holds_value(),
        ensures
            final(self).wf(),
            final(self)@ == consumed(old(self)@, callback),
            r == final(self).held(),
            r.wf(),
            r@ == final(self)@,
    {
        let mut curr = curr;
        loop
            invariant
                *self == *old(self),
                self.wf(),
                self@.lifecycle.holds_value(),
                curr.wf(),
                curr@.lifecycle.holds_value(),
            decreases (if curr == self.held() { 0int } else { 1int }),
        {
            let target = match curr.lifecycle() {
                Lifecycle::ReadyProducerWait => Lifecycle::ProducerWait,
                _ => Lifecycle::New,
            };
            let mut next = curr.with_lifecycle(target);
            if callback {
                next = next.with_consuming();
            }
            let actual = self.compare_and_swap(curr, next);
            if curr == actual {
                return next;
            }
            curr = actual;
        }
    }

    /// Notes that the consumer callback has returned.
    pub fn done_consuming(&mut self) -> (r: State)
        requires
            old(self)@.consuming,
        ensures
            final(self).wf() == old(self).wf(),
            final(self)@ == (StateView { consuming: false, ..old(self)@ }),
            r == final(self).held(),
            r.wf() == final(self).wf(),
            r@ == final(self)@,
    {
        self.atomic = self.atomic.without_consuming();
        self.atomic
    }

    /// Notes that the producer is being told of the consumer, starting from the
    /// state `curr` that was read last, which the cell may have left since.
    pub fn produce(&mut self, curr: State, callback: bool) -> (r: State)
        requires
            old(self).wf(),
            producible(old(self)@.lifecycle),
            curr.wf(),
            producible(curr@.lifecycle),
        ensures
            final(self).wf(),
            final(self)@ == produced(old(self)@, callback),
            r == final(self).held(),
            r.wf(),
            r@ == final(self)@,
    {
        let mut curr = curr;
        loop
            invariant
                *self == *old(self),
                self.wf(),
                producible(self@.lifecycle),
                curr.wf(),
                producible(curr@.lifecycle),
            decreases (if curr == self.held() { 0int } else { 1int }),
        {
            let mut next = match curr.lifecycle() {
                Lifecycle::Canceled => curr,
                Lifecycle::ProducerNotifyCanceled => curr.with_lifecycle(Lifecycle::Canceled),
                _ => curr.with_lifecycle(Lifecycle::ConsumerWait),
            };
            if callback {
                next = next.with_producing();
            }
            let actual = self.compare_and_swap(curr, next);
            if curr == actual {
                return next;
            }
            curr = actual;
        }
    }

    /// Notes that the producer callback has returned.
    pub fn done_producing(&mut self) -> (r: State)
        requires
            old(self)@.producing,
        ensures
            final(self).wf() == old(self).wf(),
            final(self)@ == (StateView { producing: false, ..old(self)@ }),
            r == final(self).held(),
            r.wf() == final(self).wf(),
            r@ == final(self)@,
    {
        self.atomic = self.atomic.without_producing();
        self.atomic
    }
}

/// Taking the value out of a state leaves who waits on the side of the producer, and telling the
/// producer leaves the consumer that waits, or the cancellation. A callback that is started runs from
/// then on.
pub proof fn law_value_is_taken_and_producer_is_told(
    taking: &mut AtomicState,
    curr: State,
    callback: bool,
    taken: State,
    telling: &mut AtomicState,
    seen: State,
    told: State,
)
    requires
        old(taking)@.lifecycle is Ready || old(taking)@.lifecycle is ReadyProducerWait || old(
            taking,
        )@.lifecycle is ConsumerNotify,
        call_ensures(AtomicState::consume, (taking, curr, callback), taken),
        old(telling)@.lifecycle is ConsumerWait || old(telling)@.lifecycle is ProducerNotify || old(
            telling,
        )@.lifecycle is ProducerNotifyCanceled || old(telling)@.lifecycle is Canceled,
        call_ensures(AtomicState::produce, (telling, seen, callback), told),
    ensures
        taken@ == final(taking)@ && told@ == final(telling)@,
        final(taking)@.lifecycle is ProducerWait <==> old(taking)@.lifecycle is ReadyProducerWait,
        final(taking)@.lifecycle is New <==> !(old(taking)@.lifecycle is ReadyProducerWait),
        final(taking)@.consuming <==> old(taking)@.consuming || callback,
        final(taking)@.producing == old(taking)@.producing && final(taking)@.refs == old(
            taking,
        )@.refs,
        final(telling)@.lifecycle is Canceled <==> old(telling)@.lifecycle is Canceled || old(
            telling,
        )@.lifecycle is ProducerNotifyCanceled,
        final(telling)@.lifecycle is ConsumerWait <==> old(telling)@.lifecycle is ConsumerWait || old(
            telling,
        )@.lifecycle is ProducerNotify,
        final(telling)@.producing <==> old(telling)@.producing || callback,
        final(telling)@.consuming == old(telling)@.consuming && final(telling)@.refs == old(
            telling,
        )@.refs,
{
}

/// The other steps on the state: a swap happens exactly where the state is the one that was read,
/// handles are counted one by one, and a callback that returns no longer runs.
pub proof fn law_steps_on_the_cell(
    cas: &mut AtomicState,
    expect: State,
    val: State,
    seen: State,
    inc: &mut AtomicState,
    dec: &mut AtomicState,
    before: usize,
    consumed: &mut AtomicState,
    c: State,
    produced: &mut AtomicState,
    p: State,
    lifecycle: Lifecycle,
    made: AtomicState,
)
    requires
        call_ensures(AtomicState::compare_and_swap, (cas, expect, val), seen),
        call_ensures(AtomicState::ref_inc, (inc,), ()),
        old(dec)@.refs >= 1,
        call_ensures(AtomicState::ref_dec, (dec,), before),
        call_ensures(AtomicState::done_consuming, (consumed,), c),
        call_ensures(AtomicState::done_producing, (produced,), p),
        call_ensures(AtomicState::of, (lifecycle,), made),
    ensures
        seen == old(cas).held(),
        final(cas).held() == (if old(cas).held() == expect {
            val
        } else {
            old(cas).held()
        }),
        final(inc)@.refs == old(inc)@.refs + 1 && final(inc)@.lifecycle == old(inc)@.lifecycle,
        before == old(dec)@.refs && final(dec)@.refs + 1 == before && final(dec)@.lifecycle == old(
            dec,
        )@.lifecycle,
        !final(consumed)@.consuming && final(consumed)@.lifecycle == old(consumed)@.lifecycle
            && final(consumed)@.producing == old(consumed)@.producing && final(consumed)@.refs
            == old(consumed)@.refs && c@ == final(consumed)@,
        !final(produced)@.producing && final(produced)@.lifecycle == old(produced)@.lifecycle
            && final(produced)@.consuming == old(produced)@.consuming && final(produced)@.refs
            == old(produced)@.refs && p@ == final(produced)@,
        made@.lifecycle == lifecycle && made@.refs == 1 && !made@.consuming && !made@.producing,
{
}

} // verus!
