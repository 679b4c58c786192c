//! What the operations on a linked queue are for, one by one.
//!
//! The laws speak of the elements and of those that wait, before and after an operation, and of
//! what it came to.
use super::inner::{LinkedQueue, LinkedQueueView, TimedPut, TimedTake};
use super::timeout::Timeout;
use crate::duration::Duration;
use crate::queue::{Attempt, Queue, SyncQueue};
use crate::util::Consume;
use vstd::prelude::*;

verus! {

/// The head `v` was taken, the others are left in their order, and nothing else changed.
pub open spec fn head_taken<T>(q: LinkedQueueView<T>, after: LinkedQueueView<T>, v: T) -> bool {
    &&& q.items == seq![v] + after.items
    &&& same_counts(q, after)
}

/// The element `v` was put behind all others, for which there was room, and nothing else changed.
pub open spec fn put_at_the_end<T>(q: LinkedQueueView<T>, after: LinkedQueueView<T>, v: T) -> bool {
    &&& q.items.len() < q.capacity
    &&& after.items == q.items + seq![v]
    &&& same_counts(q, after)
}

/// The capacity and the numbers of those that wait are what they were.
pub open spec fn same_counts<T>(q: LinkedQueueView<T>, after: LinkedQueueView<T>) -> bool {
    &&& after.capacity == q.capacity
    &&& after.consumers == q.consumers
    &&& after.producers == q.producers
}

/// Taking gives the head, or nothing from an empty queue. Where the result says so a producer that
/// waits is to be woken: exactly if there is one.
pub proof fn law_take_gives_the_head<T>(
    c1: &mut LinkedQueue<T>,
    taken: Option<T>,
    c2: &mut LinkedQueue<T>,
    polled: Option<(T, bool)>,
)
    requires
        old(c1).valid() && old(c2).valid(),
        call_ensures(LinkedQueue::<T>::take_opt, (c1,), taken),
        call_ensures(LinkedQueue::<T>::poll_notify, (c2,), polled),
    ensures
        taken is Some <==> old(c1)@.items.len() > 0,
        taken matches Some(v) ==> head_taken(old(c1)@, final(c1)@, v),
        taken is None ==> final(c1)@ == old(c1)@,
        polled is Some <==> old(c2)@.items.len() > 0,
        polled matches Some(p) ==> head_taken(old(c2)@, final(c2)@, p.0) && (p.1 <==> old(
            c2,
        )@.producers > 0),
        polled is None ==> final(c2)@ == old(c2)@,
{
    if taken is Some {
        assert(old(c1)@.items =~= seq![old(c1)@.items[0]] + old(c1)@.items.drop_first());
    }
    if polled is Some {
        assert(old(c2)@.items =~= seq![old(c2)@.items[0]] + old(c2)@.items.drop_first());
    }
}

/// Putting adds an element at the end, or hands it back from a full queue. Where the result says so
/// a consumer that waits is to be woken: exactly if there is one.
pub proof fn law_put_adds_at_the_end<T>(
    c1: &mut LinkedQueue<T>,
    val: T,
    put: Result<(), T>,
    c2: &mut LinkedQueue<T>,
    offered: Result<bool, T>,
)
    requires
        old(c1).valid() && old(c2).valid(),
        call_ensures(LinkedQueue::<T>::put_opt, (c1, val), put),
        call_ensures(LinkedQueue::<T>::offer_notify, (c2, val), offered),
    ensures
        put is Ok <==> old(c1)@.items.len() < old(c1)@.capacity,
        put is Ok ==> put_at_the_end(old(c1)@, final(c1)@, val),
        put matches Err(v) ==> v == val && final(c1)@ == old(c1)@,
        offered is Ok <==> old(c2)@.items.len() < old(c2)@.capacity,
        offered matches Ok(wake) ==> put_at_the_end(old(c2)@, final(c2)@, val) && (wake <==> old(
            c2,
        )@.consumers > 0),
        offered matches Err(v) ==> v == val && final(c2)@ == old(c2)@,
{
    assert(old(c1)@.items.push(val) =~= old(c1)@.items + seq![val]);
    assert(old(c2)@.items.push(val) =~= old(c2)@.items + seq![val]);
}

/// Elements come out in the order in which they were put: what was put last into a queue comes out
/// after exactly as many as were in it.
pub proof fn law_put_then_take<T>(
    q: &mut LinkedQueue<T>,
    val: T,
    next: &mut LinkedQueue<T>,
    taken: Option<T>,
)
    requires
        old(q).valid(),
        call_ensures(LinkedQueue::<T>::put_opt, (q, val), Ok(())),
        *old(next) == *final(q),
        old(next).valid(),
        call_ensures(LinkedQueue::<T>::take_opt, (next,), taken),
    ensures
        old(q)@.items.len() == 0 ==> taken == Some(val) && final(next)@.items.len() == 0,
        old(q)@.items.len() > 0 ==> taken == Some(old(q)@.items[0]) && final(next)@.items
            == old(q)@.items.drop_first() + seq![val],
{
    if old(q)@.items.len() > 0 {
        assert(old(q)@.items.push(val).drop_first() =~= old(q)@.items.drop_first() + seq![val]);
    }
}

/// Waiting for an element, or for room, lasts no longer than what is left of the timeout: the caller
/// gets what it wants at once if it can, gives up where nothing is left, and else waits for what is
/// left.
pub proof fn law_waiting_is_limited_by_the_timeout<T>(
    timeout: &Timeout,
    left: u64,
    over: bool,
    c1: &mut LinkedQueue<T>,
    taken: TimedTake<T>,
    c2: &mut LinkedQueue<T>,
    val: T,
    put: TimedPut<T>,
)
    requires
        call_ensures(Timeout::remaining_ms, (timeout,), left),
        call_ensures(Timeout::is_elapsed, (timeout,), over),
        old(c1).valid() && old(c2).valid(),
        call_ensures(LinkedQueue::<T>::take_wait, (c1, timeout), taken),
        call_ensures(LinkedQueue::<T>::put_wait, (c2, val, timeout), put),
    ensures
        over <==> left == 0,
        taken is Done <==> old(c1)@.items.len() > 0,
        taken matches TimedTake::Done(v, wake) ==> head_taken(old(c1)@, final(c1)@, v) && (wake
            <==> old(c1)@.producers > 0),
        !(taken is Done) ==> final(c1)@ == old(c1)@,
        taken is Elapsed <==> old(c1)@.items.len() == 0 && left == 0,
        taken matches TimedTake::Wait(ms) ==> ms == left && ms > 0,
        put is Done <==> old(c2)@.items.len() < old(c2)@.capacity,
        put matches TimedPut::Done(wake) ==> put_at_the_end(old(c2)@, final(c2)@, val) && (wake
            <==> old(c2)@.consumers > 0),
        !(put is Done) ==> final(c2)@ == old(c2)@,
        put is Elapsed <==> old(c2)@.items.len() >= old(c2)@.capacity && left == 0,
        put matches TimedPut::Elapsed(v) ==> v == val,
        put matches TimedPut::Wait(v, ms) ==> v == val && ms == left && ms > 0,
{
    if taken is Done {
        assert(old(c1)@.items =~= seq![old(c1)@.items[0]] + old(c1)@.items.drop_first());
    }
    assert(old(c2)@.items.push(val) =~= old(c2)@.items + seq![val]);
}

/// Those that wait are counted one by one on their own side, and are told of by just that count.
pub proof fn law_waiters_are_counted<T>(
    c1: &mut LinkedQueue<T>,
    c2: &mut LinkedQueue<T>,
    c3: &mut LinkedQueue<T>,
    c4: &mut LinkedQueue<T>,
    any: &LinkedQueue<T>,
    consumers: usize,
    producers: usize,
    wake_consumer: bool,
    wake_producer: bool,
    len: usize,
)
    requires
        old(c1).valid() && old(c2).valid() && old(c3).valid() && old(c4).valid() && any.valid(),
        call_ensures(LinkedQueue::<T>::consumer_waits, (c1,), ()),
        old(c2)@.consumers > 0,
        call_ensures(LinkedQueue::<T>::consumer_resumes, (c2,), ()),
        call_ensures(LinkedQueue::<T>::producer_waits, (c3,), ()),
        old(c4)@.producers > 0,
        call_ensures(LinkedQueue::<T>::producer_resumes, (c4,), ()),
        call_ensures(LinkedQueue::<T>::consumer_waiting, (any,), consumers),
        call_ensures(LinkedQueue::<T>::producer_waiting, (any,), producers),
        call_ensures(LinkedQueue::<T>::consumer_notify, (any,), wake_consumer),
        call_ensures(LinkedQueue::<T>::producer_notify, (any,), wake_producer),
        call_ensures(LinkedQueue::<T>::len, (any,), len),
    ensures
        final(c1)@.items == old(c1)@.items && final(c1)@.capacity == old(c1)@.capacity,
        final(c1)@.consumers == old(c1)@.consumers + 1 && final(c1)@.producers == old(
            c1,
        )@.producers,
        final(c2)@.items == old(c2)@.items && final(c2)@.capacity == old(c2)@.capacity,
        final(c2)@.consumers + 1 == old(c2)@.consumers && final(c2)@.producers == old(
            c2,
        )@.producers,
        final(c3)@.items == old(c3)@.items && final(c3)@.capacity == old(c3)@.capacity,
        final(c3)@.producers == old(c3)@.producers + 1 && final(c3)@.consumers == old(
            c3,
        )@.consumers,
        final(c4)@.items == old(c4)@.items && final(c4)@.capacity == old(c4)@.capacity,
        final(c4)@.producers + 1 == old(c4)@.producers && final(c4)@.consumers == old(
            c4,
        )@.consumers,
        consumers == any@.consumers && producers == any@.producers,
        wake_consumer <==> consumers > 0,
        wake_producer <==> producers > 0,
        len == any@.items.len(),
{
}

/// The queue as one among others does the same: the head comes out, elements are added at the end,
/// also those that are to come out last, and a caller of an empty queue waits.
pub proof fn law_linked_queue_is_a_queue<T>(
    c1: &mut LinkedQueue<T>,
    polled: Option<T>,
    c2: &mut LinkedQueue<T>,
    taken: Attempt<T>,
    val: T,
    c3: &mut LinkedQueue<T>,
    offered: Result<(), T>,
    c4: &mut LinkedQueue<T>,
    put: Result<(), T>,
    c5: &mut LinkedQueue<T>,
    last: Result<(), T>,
    any: &LinkedQueue<T>,
    empty: bool,
)
    requires
        old(c1).valid() && old(c2).valid() && old(c3).valid() && old(c4).valid() && old(c5).valid()
            && any.valid(),
        call_ensures(<LinkedQueue<T> as Queue<T>>::poll, (c1,), polled),
        call_ensures(<LinkedQueue<T> as SyncQueue<T>>::take, (c2,), taken),
        call_ensures(<LinkedQueue<T> as Queue<T>>::offer, (c3, val), offered),
        call_ensures(<LinkedQueue<T> as SyncQueue<T>>::put, (c4, val), put),
        call_ensures(<LinkedQueue<T> as SyncQueue<T>>::put_last, (c5, val), last),
        call_ensures(<LinkedQueue<T> as Queue<T>>::is_empty, (any,), empty),
    ensures
        polled is Some <==> old(c1)@.items.len() > 0,
        polled matches Some(v) ==> head_taken(old(c1)@, final(c1)@, v),
        polled is None ==> final(c1)@ == old(c1)@,
        taken is Done <==> old(c2)@.items.len() > 0,
        taken matches Attempt::Done(v) ==> head_taken(old(c2)@, final(c2)@, v),
        !(taken is Done) ==> taken is Wait && final(c2)@ == old(c2)@,
        offered is Ok <==> old(c3)@.items.len() < old(c3)@.capacity,
        offered is Ok ==> put_at_the_end(old(c3)@, final(c3)@, val),
        offered matches Err(v) ==> v == val && final(c3)@ == old(c3)@,
        put is Ok <==> old(c4)@.items.len() < old(c4)@.capacity,
        put is Ok ==> put_at_the_end(old(c4)@, final(c4)@, val),
        put matches Err(v) ==> v == val && final(c4)@ == old(c4)@,
        last is Ok <==> old(c5)@.items.len() < old(c5)@.capacity,
        last is Ok ==> put_at_the_end(old(c5)@, final(c5)@, val),
        last matches Err(v) ==> v == val && final(c5)@ == old(c5)@,
        empty <==> any@.items.len() == 0,
{
    if polled is Some {
        assert(old(c1)@.items =~= seq![old(c1)@.items[0]] + old(c1)@.items.drop_first());
    }
    if taken is Done {
        assert(old(c2)@.items =~= seq![old(c2)@.items[0]] + old(c2)@.items.drop_first());
    }
    assert(old(c3)@.items.push(val) =~= old(c3)@.items + seq![val]);
    assert(old(c4)@.items.push(val) =~= old(c4)@.items + seq![val]);
    assert(old(c5)@.items.push(val) =~= old(c5)@.items + seq![val]);
    assert(offered is Ok ==> old(c3).offered(val, *final(c3)));
    assert(put is Ok ==> old(c4).offered(val, *final(c4)));
    assert(last is Ok ==> old(c5).offered_last(val, *final(c5)));
}

/// The queue as what values are taken from does the same.
pub proof fn law_linked_queue_is_consumed<T>(
    c1: &mut LinkedQueue<T>,
    polled: Option<T>,
    c2: &mut LinkedQueue<T>,
    taken: Attempt<T>,
)
    requires
        old(c1).valid() && old(c2).valid(),
        call_ensures(<LinkedQueue<T> as Consume<T>>::poll, (c1,), polled),
        call_ensures(<LinkedQueue<T> as Consume<T>>::take, (c2,), taken),
    ensures
        polled is Some <==> old(c1)@.items.len() > 0,
        polled matches Some(v) ==> old(c1)@.items == seq![v] + final(c1)@.items,
        polled is None ==> final(c1)@.items == old(c1)@.items,
        taken is Done <==> old(c2)@.items.len() > 0,
        taken matches Attempt::Done(v) ==> old(c2)@.items == seq![v] + final(c2)@.items,
        !(taken is Done) ==> taken is Wait && final(c2)@.items == old(c2)@.items,
{
    if polled is Some {
        assert(old(c1)@.items =~= seq![old(c1)@.items[0]] + old(c1)@.items.drop_first());
    }
    if taken is Done {
        assert(old(c2)@.items =~= seq![old(c2)@.items[0]] + old(c2)@.items.drop_first());
    }
}

/// A new queue is empty, nobody waits, and it has the capacity that it was given, or no limit.
pub proof fn law_new_linked_queue_is_empty<T>(
    capacity: usize,
    limited: LinkedQueue<T>,
    unlimited: LinkedQueue<T>,
)
    requires
        call_ensures(LinkedQueue::<T>::with_capacity, (capacity,), limited),
        call_ensures(LinkedQueue::<T>::new, (), unlimited),
    ensures
        limited@.items.len() == 0 && limited@.capacity == capacity,
        unlimited@.items.len() == 0 && unlimited@.capacity == usize::MAX,
        limited@.consumers == 0 && limited@.producers == 0,
        unlimited@.consumers == 0 && unlimited@.producers == 0,
{
}

/// A timeout starts with the whole milliseconds of its span. With each update the whole milliseconds
/// that have passed since the last reading of the clock are taken off: what is left is never more
/// than one millisecond too much, and nothing is left once as much time has passed. A clock that
/// went backwards changes nothing.
pub proof fn law_timeout_counts_down(
    span: Duration,
    start: u64,
    fresh: Timeout,
    timeout: &mut Timeout,
    now: u64,
    ok: bool,
    forced: &mut Timeout,
)
    requires
        call_ensures(Timeout::starting, (span, start), fresh),
        call_ensures(Timeout::update_to, (timeout, now), ok),
        old(forced).time() <= now,
        call_ensures(Timeout::update_at, (forced, now), ()),
    ensures
        fresh.time() == start,
        span@ >= 0 ==> fresh.remaining() * 1_000_000 <= span@ < (fresh.remaining() + 1) * 1_000_000,
        -1_000_000 < span@ < 0 ==> fresh.remaining() == 0,
        span@ <= -1_000_000 ==> ({
            let missing = 0x1_0000_0000_0000_0000 - fresh.remaining();
            missing * 1_000_000 <= -span@ < (missing + 1) * 1_000_000
        }),
        ok <==> old(timeout).time() <= now,
        !ok ==> *final(timeout) == *old(timeout),
        ok ==> counted_down(*old(timeout), *final(timeout), now),
        counted_down(*old(forced), *final(forced), now),
{
}

/// The time up to the reading `now` of the clock was taken off.
pub open spec fn counted_down(before: Timeout, after: Timeout, now: u64) -> bool {
    let passed = now - before.time();
    let off = before.remaining() - after.remaining();
    &&& after.time() == now
    &&& 0 <= off
    &&& off * 1_000_000 <= passed
    &&& after.remaining() > 0 ==> passed < (off + 1) * 1_000_000
    &&& after.remaining() == 0 <==> passed >= before.remaining() * 1_000_000
}

/// A timeout that starts now is left with the whole milliseconds of its span, whatever the clock
/// reads. With an update the time up to the reading of the clock is taken off.
pub proof fn law_timeout_goes_by_the_clock(
    span: Duration,
    start: u64,
    known: Timeout,
    fresh: Timeout,
    timeout: &mut Timeout,
    ok: bool,
)
    requires
        call_ensures(Timeout::starting, (span, start), known),
        call_ensures(Timeout::new, (span,), fresh),
        call_ensures(Timeout::update, (timeout,), ok),
    ensures
        fresh.remaining() == known.remaining(),
        !ok ==> *final(timeout) == *old(timeout),
        ok ==> old(timeout).time() <= final(timeout).time() && counted_down(
            *old(timeout),
            *final(timeout),
            final(timeout).time() as u64,
        ),
{
    let now = choose|now: u64| #[trigger] old(timeout).updated(now, *final(timeout), ok);
}

} // verus!
