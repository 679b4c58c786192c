//! What the operations on a delay queue are for, one by one.
//!
//! The laws speak of the entries, each a value with the reading of the clock from which on it may
//! be popped, before and after an operation, and of what it came to.
use super::delay::{Delay, Delayed};
use super::heap::Entry;
use super::inner::{
    entry, law_head_comes_first, wait_ms, DelayQueue, Poll, Take,
};
use crate::duration::Duration;
use crate::queue::{Attempt, Queue, SyncQueue};
use vstd::multiset::Multiset;
use vstd::prelude::*;

verus! {

/// The entry `x` comes out before `y`: its time is earlier, or it is the same and only `y` stands
/// behind others.
pub open spec fn before<T>(x: Entry<T>, y: Entry<T>) -> bool {
    x.time < y.time || (x.time == y.time && !x.last && y.last)
}

/// The entry `x` is one of `m`, and none of them comes out before it.
pub open spec fn comes_first<T>(m: Multiset<Entry<T>>, x: Entry<T>) -> bool {
    m.contains(x) && forall|y: Entry<T>| #[trigger] m.contains(y) ==> !before(y, x)
}

/// One of the entries of `m` may be popped when the clock reads `now`.
pub open spec fn due<T>(m: Multiset<Entry<T>>, now: int) -> bool {
    exists|x: Entry<T>| #[trigger] m.contains(x) && x.time <= now
}

/// From the reading `now` of the clock until `until` it is `ms` milliseconds, and less than one more.
pub open spec fn lies_ahead(now: int, ms: int, until: int) -> bool {
    now + ms * 1_000_000 <= until < now + (ms + 1) * 1_000_000
}

/// A wait of `ms` milliseconds from the reading `now` of the clock on waits for `until`: it ends no
/// later, and where the milliseconds fit into 32 bits less than one millisecond before. Otherwise it
/// ends some number of the longest waits and less than one millisecond before, for the next one.
pub open spec fn waits_for(now: int, ms: int, until: int) -> bool {
    &&& 0 <= ms < 0x1_0000_0000
    &&& now + ms * 1_000_000 <= until
    &&& until - now < 0x1_0000_0000 * 1_000_000 ==> lies_ahead(now, ms, until)
    &&& exists|n: nat| #[trigger] lies_ahead(now, ms + n * 0x1_0000_0000, until)
}

/// The entry that comes out first was popped with its value `v`, it was due when the clock read
/// `now`, and `wake` says whether there is another one for somebody else.
pub open spec fn popped_when_due<T: Delayed>(
    q: DelayQueue<T>,
    after: DelayQueue<T>,
    now: int,
    v: T,
) -> bool {
    &&& q.values().contains(v)
    &&& after.values() == q.values().remove(v)
    &&& exists|x: Entry<T>| #[trigger]
        comes_first(q@, x) && x.time <= now && x.val == v && after@ == q@.remove(x)
}

/// The queue is what it was.
pub open spec fn untouched<T: Delayed>(q: DelayQueue<T>, after: DelayQueue<T>) -> bool {
    after@ == q@ && after.values() == q.values()
}

/// What a turn of taking from the queue comes to when the clock reads `now`: the value that comes
/// out first if it is due, else a wait for it, or for any value.
pub open spec fn take_turn<T: Delayed>(
    q: DelayQueue<T>,
    after: DelayQueue<T>,
    now: u64,
    r: Take<T>,
) -> bool {
    &&& r is Done <==> due(q@, now as int)
    &&& r is Wait <==> q@.len() == 0
    &&& !(r is Done) ==> untouched(q, after)
    &&& r matches Take::Done(v, wake) ==> popped_when_due(q, after, now as int, v) && (wake
        <==> q@.len() > 1)
    &&& r matches Take::WaitTimeout(ms) ==> exists|x: Entry<T>| #[trigger]
        comes_first(q@, x) && waits_for(now as int, ms as int, x.time as int)
}

/// What a turn of taking from the queue until the clock reads `end` comes to when it reads `now`: a
/// wait lasts until the deadline, or until the first value is due if that is earlier.
pub open spec fn poll_turn<T: Delayed>(
    q: DelayQueue<T>,
    after: DelayQueue<T>,
    now: u64,
    end: i128,
    r: Poll<T>,
) -> bool {
    &&& r is Elapsed <==> now >= end
    &&& r is Done <==> now < end && due(q@, now as int)
    &&& !(r is Done) ==> untouched(q, after)
    &&& r matches Poll::Done(v, wake) ==> popped_when_due(q, after, now as int, v) && (wake
        <==> q@.len() > 1)
    &&& r matches Poll::Wait(ms) ==> {
        &&& now + ms * 1_000_000 <= end
        &&& forall|x: Entry<T>| #[trigger] q@.contains(x) ==> now + ms * 1_000_000 <= x.time
        &&& waits_for(now as int, ms as int, end as int) || exists|x: Entry<T>| #[trigger]
            comes_first(q@, x) && x.time < end && waits_for(now as int, ms as int, x.time as int)
    }
}

/// The first entry of a queue with entries is its head, and a queue is ready where one is due.
proof fn lemma_first<T: Delayed>(q: DelayQueue<T>)
    requires
        q.valid(),
    ensures
        q@.len() > 0 ==> comes_first(q@, q.head()),
        forall|now: u64| #[trigger] q.ready(now) <==> due(q@, now as int),
        forall|x: Entry<T>| #[trigger] q@.contains(x) ==> q@.len() > 0 && q.head().time <= x.time,
{
    if q@.len() > 0 {
        q.lemma_head();
        assert forall|y: Entry<T>| #[trigger] q@.contains(y) implies !before(y, q.head()) by {
            law_head_comes_first(q, y);
        }
    }
    assert forall|x: Entry<T>| #[trigger] q@.contains(x) implies q@.len() > 0 && q.head().time
        <= x.time by {
        law_head_comes_first(q, x);
        assert(q@.remove(x).insert(x) =~= q@);
    }
    assert forall|now: u64| #[trigger] q.ready(now) <==> due(q@, now as int) by {
        if q.ready(now) {
            q.lemma_head();
            assert(q@.contains(q.head()));
        }
        if due(q@, now as int) {
            let x = choose|x: Entry<T>| #[trigger] q@.contains(x) && x.time <= now;
            assert(q@.contains(x));
        }
    }
}

/// The milliseconds of a wait are a wait for what it waits for.
pub proof fn law_wait_lasts_as_long_as_it_should(now: u64, until: i128)
    requires
        now <= until,
    ensures
        waits_for(now as int, wait_ms(until as int, now as int), until as int),
{
    let d = until - now;
    let n = d / 1_000_000;
    assert(0 <= n % 0x1_0000_0000 <= n) by (nonlinear_arith)
        requires
            n >= 0,
    ;
    if d < 0x1_0000_0000 * 1_000_000 {
        assert(n < 0x1_0000_0000);
        assert(n % 0x1_0000_0000 == n);
    }
    let k = (n / 0x1_0000_0000) as nat;
    assert(lies_ahead(now as int, n % 0x1_0000_0000 + k * 0x1_0000_0000, until as int));
}

/// Taking from a queue gives the value that comes out first as soon as it is due, and until then a
/// wait that ends with its delay.
pub proof fn law_take_waits_for_the_first_value<T: Delayed>(
    q: &mut DelayQueue<T>,
    now: u64,
    r: Take<T>,
    other: &mut DelayQueue<T>,
    s: Take<T>,
)
    requires
        old(q).valid(),
        call_ensures(DelayQueue::<T>::take_at, (q, now), r),
        old(other).valid(),
        call_ensures(DelayQueue::<T>::take_now, (other,), s),
    ensures
        take_turn(*old(q), *final(q), now, r),
        exists|t: u64| #[trigger] take_turn(*old(other), *final(other), t, s),
{
    lemma_first(*old(q));
    lemma_take_turn(*old(q), *final(q), now, r);
    lemma_first(*old(other));
    let t = choose|t: u64|
        {
            &&& s is Done <==> #[trigger] old(other).ready(t)
            &&& s matches Take::WaitTimeout(ms) ==> ms == wait_ms(
                old(other).head().time as int,
                t as int,
            )
        };
    lemma_take_turn(*old(other), *final(other), t, s);
}

/// A turn of taking.
proof fn lemma_take_turn<T: Delayed>(q: DelayQueue<T>, after: DelayQueue<T>, now: u64, r: Take<T>)
    requires
        q.valid(),
        r is Wait <==> q@.len() == 0,
        r is Done <==> q.ready(now),
        r matches Take::Done(v, wake) ==> q.popped(after, v) && wake == q.pop_wakes(),
        r matches Take::WaitTimeout(ms) ==> ms == wait_ms(q.head().time as int, now as int),
        !(r is Done) ==> q.same(after),
    ensures
        take_turn(q, after, now, r),
{
    lemma_first(q);
    if let Take::WaitTimeout(ms) = r {
        law_wait_lasts_as_long_as_it_should(now, q.head().time);
        assert(comes_first(q@, q.head()));
    }
}

/// Taking from a queue until a deadline gives the value that comes out first as soon as it is due,
/// ends at the deadline, and waits no longer than until either.
pub proof fn law_poll_waits_until_its_deadline<T: Delayed>(
    q: &mut DelayQueue<T>,
    now: u64,
    end: i128,
    r: Poll<T>,
    other: &mut DelayQueue<T>,
    s: Poll<T>,
)
    requires
        old(q).valid(),
        call_ensures(DelayQueue::<T>::poll_timeout_at, (q, now, end), r),
        old(other).valid(),
        call_ensures(DelayQueue::<T>::poll_timeout, (other, end), s),
    ensures
        poll_turn(*old(q), *final(q), now, end, r),
        exists|t: u64| #[trigger] poll_turn(*old(other), *final(other), t, end, s),
{
    lemma_poll_turn(*old(q), *final(q), now, end, r);
    let t = choose|t: u64| #[trigger] old(other).polled(t, end, s);
    lemma_poll_turn(*old(other), *final(other), t, end, s);
}

/// A turn of taking until a deadline.
proof fn lemma_poll_turn<T: Delayed>(
    q: DelayQueue<T>,
    after: DelayQueue<T>,
    now: u64,
    end: i128,
    r: Poll<T>,
)
    requires
        q.valid(),
        r is Elapsed <==> now >= end,
        r is Done <==> now < end && q.ready(now),
        r matches Poll::Done(v, wake) ==> q.popped(after, v) && wake == q.pop_wakes(),
        r matches Poll::Wait(ms) ==> ms == wait_ms(q.wait_until(end), now as int),
        !(r is Done) ==> q.same(after),
    ensures
        poll_turn(q, after, now, end, r),
{
    lemma_first(q);
    if let Poll::Wait(ms) = r {
        assert(!q.ready(now));
        law_wait_lasts_as_long_as_it_should(now, q.wait_until(end) as i128);
        if q@.len() > 0 {
            assert(comes_first(q@, q.head()));
        }
    }
}

/// Looking into a queue gives the value that comes out first if it is due, else nothing.
pub proof fn law_poll_gives_what_is_due<T: Delayed>(
    q: &mut DelayQueue<T>,
    now: u64,
    r: Option<(T, bool)>,
    other: &mut DelayQueue<T>,
    s: Option<(T, bool)>,
)
    requires
        old(q).valid(),
        call_ensures(DelayQueue::<T>::poll_at, (q, now), r),
        old(other).valid(),
        call_ensures(DelayQueue::<T>::poll_now, (other,), s),
    ensures
        r is Some <==> due(old(q)@, now as int),
        r is None ==> untouched(*old(q), *final(q)),
        r matches Some(v) ==> popped_when_due(*old(q), *final(q), now as int, v.0) && (v.1
            <==> old(q)@.len() > 1),
        s is None ==> untouched(*old(other), *final(other)),
        old(other)@.len() == 0 ==> s is None,
        exists|t: u64|
            {
                &&& s is Some <==> #[trigger] due(old(other)@, t as int)
                &&& s matches Some(v) ==> popped_when_due(
                    *old(other),
                    *final(other),
                    t as int,
                    v.0,
                ) && (v.1 <==> old(other)@.len() > 1)
            },
{
    lemma_first(*old(q));
    lemma_first(*old(other));
    let t = choose|t: u64| s is Some <==> #[trigger] old(other).ready(t);
    assert(s is Some <==> due(old(other)@, t as int));
    if s is Some {
        assert(comes_first(old(other)@, old(other).head()));
    }
    if r is Some {
        assert(comes_first(old(q)@, old(q).head()));
    }
}

/// The value `e` was added when the clock read `now`, as an entry that is due after its delay, and
/// `wake` says whether it comes out before all others.
pub open spec fn added<T: Delayed>(
    q: DelayQueue<T>,
    after: DelayQueue<T>,
    e: T,
    now: u64,
    wake: bool,
) -> bool {
    &&& after.values() == q.values().insert(e)
    &&& exists|x: Entry<T>|
        {
            &&& #[trigger] q@.insert(x) == after@
            &&& x.val == e
            &&& x.time == now + e.delay_ns()
            &&& !x.last
            &&& wake <==> forall|y: Entry<T>| #[trigger] q@.contains(y) ==> before(x, y)
        }
}

/// A value that is offered is due after its delay, counted from the reading of the clock, and
/// somebody is woken where it comes out before all others.
pub proof fn law_offered_value_is_due_after_its_delay<T: Delayed>(
    q: &mut DelayQueue<T>,
    e: T,
    now: u64,
    r: bool,
    other: &mut DelayQueue<T>,
    s: bool,
)
    requires
        old(q).valid(),
        e.delay_ns() >= 0,
        call_ensures(DelayQueue::<T>::offer_at, (q, e, now), r),
        old(other).valid(),
        call_ensures(DelayQueue::<T>::offer_now, (other, e), s),
    ensures
        added(*old(q), *final(q), e, now, r),
        exists|t: u64| #[trigger] added(*old(other), *final(other), e, t, s),
{
    lemma_added(*old(q), *final(q), e, now, r);
    let t = choose|t: u64|
        #![trigger entry(e, t)]
        entry(e, t).time == t + e.delay_ns() && final(other)@ == old(other)@.insert(entry(e, t)) && s
            == old(other).push_wakes(entry(e, t));
    lemma_added(*old(other), *final(other), e, t, s);
}

/// A value that is added.
proof fn lemma_added<T: Delayed>(
    q: DelayQueue<T>,
    after: DelayQueue<T>,
    e: T,
    now: u64,
    wake: bool,
)
    requires
        q.valid(),
        after.values() == q.values().insert(e),
        entry(e, now).time == now + e.delay_ns(),
        after@ == q@.insert(entry(e, now)),
        wake == q.push_wakes(entry(e, now)),
    ensures
        added(q, after, e, now, wake),
{
    let x = entry(e, now);
    lemma_first(q);
    if q@.len() > 0 {
        assert(q@.contains(q.head()));
        if wake {
            assert forall|y: Entry<T>| #[trigger] q@.contains(y) implies before(x, y) by {
                law_head_comes_first(q, y);
            }
        }
    }
    assert(q@.insert(x) == after@);
}

/// The value `e` was put behind all others when the clock read `now`: it comes out after each of
/// them, is due after its delay and not before any of them, and no later than both say.
pub open spec fn put_after_all<T: Delayed>(
    q: DelayQueue<T>,
    after: DelayQueue<T>,
    e: T,
    now: u64,
) -> bool {
    &&& after.values() == q.values().insert(e)
    &&& exists|x: Entry<T>|
        {
            &&& #[trigger] q@.insert(x) == after@
            &&& x.val == e
            &&& x.time >= now + e.delay_ns()
            &&& x.time == now + e.delay_ns() || exists|y: Entry<T>| #[trigger]
                q@.contains(y) && y.time == x.time
            &&& forall|y: Entry<T>| #[trigger]
                q@.contains(y) ==> y.time <= x.time && !before(x, y)
        }
}

/// A value that is put behind all others comes out last, and as soon as it can.
pub proof fn law_value_put_last_comes_out_last<T: Delayed>(
    q: &mut DelayQueue<T>,
    e: T,
    now: u64,
    r: bool,
    other: &mut DelayQueue<T>,
    s: Result<(), T>,
)
    requires
        old(q).valid(),
        e.delay_ns() >= 0,
        call_ensures(DelayQueue::<T>::put_last_at, (q, e, now), r),
        old(other).valid(),
        call_ensures(<DelayQueue<T> as SyncQueue<T>>::put_last, (other, e), s),
    ensures
        put_after_all(*old(q), *final(q), e, now),
        r <==> old(q)@.len() == 0,
        s is Ok,
        exists|t: u64| #[trigger] put_after_all(*old(other), *final(other), e, t),
{
    let x = choose|x: Entry<T>| #[trigger]
        old(q).put_behind(e, now, x, *final(q)) && r == old(q).push_wakes(x);
    lemma_put_after_all(*old(q), *final(q), e, now, x);
    lemma_first(*old(q));
    if old(q)@.len() > 0 {
        assert(old(q)@.contains(old(q).head()));
    }
    assert(old(other).offered_last(e, *final(other)));
    let (y, t) = choose|y: Entry<T>, t: u64| #[trigger]
        old(other).put_behind(e, t, y, *final(other));
    lemma_put_after_all(*old(other), *final(other), e, t, y);
}

/// A value that is put behind all others.
proof fn lemma_put_after_all<T: Delayed>(
    q: DelayQueue<T>,
    after: DelayQueue<T>,
    e: T,
    now: u64,
    x: Entry<T>,
)
    requires
        after.values() == q.values().insert(e),
        q.put_behind(e, now, x, after),
    ensures
        put_after_all(q, after, e, now),
{
    assert(q@.insert(x) == after@);
    if x.time != now + e.delay_ns() {
        let y = choose|y: Entry<T>| #[trigger] q@.contains(y) && y.time == x.time;
        assert(q@.contains(y) && y.time == x.time);
    }
}

/// The queue as one among others does the same, when the clock reads what it reads: what is offered
/// or put is added, and what is due is taken.
pub proof fn law_delay_queue_is_a_queue<T: Delayed>(
    c1: &mut DelayQueue<T>,
    polled: Option<T>,
    c2: &mut DelayQueue<T>,
    taken: Attempt<T>,
    c3: &mut DelayQueue<T>,
    e: T,
    offered: Result<(), T>,
    c4: &mut DelayQueue<T>,
    put: Result<(), T>,
    any: &DelayQueue<T>,
    empty: bool,
    len: usize,
)
    requires
        old(c1).valid() && old(c2).valid() && old(c3).valid() && old(c4).valid() && any.valid(),
        e.delay_ns() >= 0,
        call_ensures(<DelayQueue<T> as Queue<T>>::poll, (c1,), polled),
        call_ensures(<DelayQueue<T> as SyncQueue<T>>::take, (c2,), taken),
        call_ensures(<DelayQueue<T> as Queue<T>>::offer, (c3, e), offered),
        call_ensures(<DelayQueue<T> as SyncQueue<T>>::put, (c4, e), put),
        call_ensures(<DelayQueue<T> as Queue<T>>::is_empty, (any,), empty),
        call_ensures(DelayQueue::<T>::len, (any,), len),
    ensures
        polled is None ==> untouched(*old(c1), *final(c1)),
        exists|t: u64|
            {
                &&& polled is Some <==> #[trigger] due(old(c1)@, t as int)
                &&& polled matches Some(v) ==> popped_when_due(*old(c1), *final(c1), t as int, v)
            },
        !(taken is Done) ==> untouched(*old(c2), *final(c2)),
        taken is Wait <==> old(c2)@.len() == 0,
        exists|t: u64|
            {
                &&& taken is Done <==> #[trigger] due(old(c2)@, t as int)
                &&& taken matches Attempt::Done(v) ==> popped_when_due(
                    *old(c2),
                    *final(c2),
                    t as int,
                    v,
                )
                &&& taken matches Attempt::WaitTimeout(ms) ==> exists|x: Entry<T>| #[trigger]
                    comes_first(old(c2)@, x) && waits_for(t as int, ms as int, x.time as int)
            },
        offered is Ok,
        exists|t: u64, wake: bool| #[trigger] added(*old(c3), *final(c3), e, t, wake),
        put is Ok,
        exists|t: u64, wake: bool| #[trigger] added(*old(c4), *final(c4), e, t, wake),
        empty <==> any@.len() == 0,
        len == any@.len(),
{
    lemma_first(*old(c1));
    let t1 = choose|t: u64| polled is Some <==> #[trigger] old(c1).ready(t);
    assert(polled is Some <==> due(old(c1)@, t1 as int));
    if polled is Some {
        assert(comes_first(old(c1)@, old(c1).head()));
    }
    lemma_first(*old(c2));
    old(c2).lemma_values();
    let t2 = choose|t: u64|
        {
            &&& taken is Done <==> #[trigger] old(c2).ready(t)
            &&& taken matches Attempt::WaitTimeout(ms) ==> ms == wait_ms(
                old(c2).head().time as int,
                t as int,
            )
        };
    assert(taken is Done <==> due(old(c2)@, t2 as int));
    if !(taken is Wait) {
        assert(comes_first(old(c2)@, old(c2).head()));
        if taken is WaitTimeout {
            law_wait_lasts_as_long_as_it_should(t2, old(c2).head().time);
        }
    }
    assert(old(c3).offered(e, *final(c3)));
    let t3 = choose|t: u64|
        #![trigger entry(e, t)]
        entry(e, t).time == t + e.delay_ns() && final(c3)@ == old(c3)@.insert(entry(e, t));
    lemma_added(*old(c3), *final(c3), e, t3, old(c3).push_wakes(entry(e, t3)));
    assert(old(c4).offered(e, *final(c4)));
    let t4 = choose|t: u64|
        #![trigger entry(e, t)]
        entry(e, t).time == t + e.delay_ns() && final(c4)@ == old(c4)@.insert(entry(e, t));
    lemma_added(*old(c4), *final(c4), e, t4, old(c4).push_wakes(entry(e, t4)));
}

/// Two values that are in a queue together come out in the order in which they are due.
pub proof fn law_values_come_out_in_the_order_of_their_times<T: Delayed>(
    q: &mut DelayQueue<T>,
    now: u64,
    first: (T, bool),
    next: &mut DelayQueue<T>,
    later: u64,
    second: (T, bool),
)
    requires
        old(q).valid(),
        call_ensures(DelayQueue::<T>::poll_at, (q, now), Some(first)),
        *old(next) == *final(q),
        old(next).valid(),
        call_ensures(DelayQueue::<T>::poll_at, (next, later), Some(second)),
    ensures
        exists|x: Entry<T>, y: Entry<T>| #[trigger]
            comes_first(old(q)@, x) && #[trigger] comes_first(old(next)@, y) && x.val == first.0
                && y.val == second.0 && !before(y, x) && old(q)@.contains(y),
{
    lemma_popped(q, now, first);
    lemma_popped(next, later, second);
    let x = choose|x: Entry<T>| #[trigger]
        comes_first(old(q)@, x) && x.time <= now && x.val == first.0 && final(q)@ == old(
            q,
        )@.remove(x);
    let y = choose|y: Entry<T>| #[trigger]
        comes_first(old(next)@, y) && y.time <= later && y.val == second.0 && final(next)@ == old(
            next,
        )@.remove(y);
    assert(old(q)@.contains(y));
}

/// What is popped was the first that was due.
proof fn lemma_popped<T: Delayed>(q: &mut DelayQueue<T>, now: u64, popped: (T, bool))
    requires
        old(q).valid(),
        call_ensures(DelayQueue::<T>::poll_at, (q, now), Some(popped)),
    ensures
        popped_when_due(*old(q), *final(q), now as int, popped.0),
{
    lemma_first(*old(q));
    assert(comes_first(old(q)@, old(q).head()));
}

/// A new queue is empty, and a deadline is a timeout after the reading of the clock.
pub proof fn law_new_delay_queue_is_empty<T: Delayed>(
    q: DelayQueue<T>,
    now: u64,
    timeout: Duration,
    end: i128,
)
    requires
        call_ensures(DelayQueue::<T>::new, (), q),
        call_ensures(DelayQueue::<T>::deadline_at, (now, timeout), end),
    ensures
        q@.len() == 0,
        q.values().len() == 0,
        forall|t: int| !(#[trigger] due(q@, t)),
        end - now == timeout@,
{
}

/// A delay gives its value and its span again. No value has no delay.
pub proof fn law_delay_keeps_its_parts<T>(
    delay: Delay<T>,
    val: T,
    span: Duration,
    none: Duration,
    some: Duration,
)
    requires
        call_ensures(Delay::<T>::unwrap, (delay,), val),
        call_ensures(<Delay<T> as Delayed>::delay, (&delay,), span),
        call_ensures(<Option<Delay<T>> as Delayed>::delay, (&None::<Delay<T>>,), none),
        call_ensures(<Option<Delay<T>> as Delayed>::delay, (&Some(delay),), some),
    ensures
        val == delay.0,
        span@ == delay.1@,
        none@ == 0,
        some@ == delay.1@,
{
}

/// The deadline of a caller lies behind some reading of the clock by just the timeout.
pub proof fn law_deadline_lies_behind_the_clock<T: Delayed>(timeout: Duration, end: i128)
    requires
        call_ensures(DelayQueue::<T>::deadline, (timeout,), end),
    ensures
        0 <= end - timeout@ <= u64::MAX,
{
}

/// A delayed value is read and changed in place, and keeps its span.
pub proof fn law_delayed_value_is_changed_in_place<T>(
    delay: &mut Delay<T>,
    r: &mut T,
    changed: Delay<T>,
    val: T,
)
    requires
        call_ensures(Delay::<T>::deref_mut, (delay,), r),
        changed == *final(delay),
        call_ensures(Delay::<T>::unwrap, (changed,), val),
    ensures
        *old(r) == old(delay).0,
        val == *final(r),
        changed.1 == old(delay).1,
{
}

} // verus!
