//! The queue.
use vstd::multiset::Multiset;
use vstd::prelude::*;
use crate::clock::precise_time_ns;
use crate::delay_queue::delay::Delayed;
use crate::delay_queue::heap::{Entry, Heap};
use crate::duration::{Duration, NANOS_PER_MS};
use crate::queue::{Attempt, Queue, SyncQueue};

verus! {

/// One turn of a retrieval that waits no longer than a deadline.
#[derive(Debug, PartialEq, Eq)]
pub enum Poll<T> {
    /// The value was retrieved. The flag says whether another of the callers that
    /// wait has to be woken.
    Done(T, bool),
    /// The deadline has passed.
    Elapsed,
    /// The caller has to wait until it is notified, or for the given number of
    /// milliseconds, then to try again.
    Wait(u32),
}

/// One turn of a retrieval that waits without a limit.
#[derive(Debug, PartialEq, Eq)]
pub enum Take<T> {
    /// The value was retrieved. The flag says whether another of the callers that
    /// wait has to be woken.
    Done(T, bool),
    /// The caller has to wait until it is notified, then to try again.
    Wait,
    /// The caller has to wait until it is notified, or for the given number of
    /// milliseconds, then to try again.
    WaitTimeout(u32),
}

/// The milliseconds of a wait from `now` until `until`, as far as they fit into
/// 32 bits.
pub open spec fn wait_ms(until: int, now: int) -> int {
    ((until - now) / 1_000_000) % 0x1_0000_0000
}

/// No entry of `m` comes before its entry `e`.
pub open spec fn earliest<T>(m: Multiset<Entry<T>>, e: Entry<T>) -> bool {
    &&& m.contains(e)
    &&& forall|x: Entry<T>| #[trigger] m.contains(x) ==> e.key() <= x.key()
}

/// The entry of a value that is offered when the clock reads `now`.
pub open spec fn entry<T: Delayed>(e: T, now: u64) -> Entry<T> {
    Entry { val: e, time: (now + e.delay_ns()) as i128, last: false }
}

/// An unbounded queue of delayed values. When a value is pushed onto the
/// queue, a delay is included. The value will only be able to be popped off
/// once the specified delay has expired. The head of the queue is the value
/// whose delay is expired and furthest in the past.
///
/// The operations that pop or push a value say whether one of the callers that wait
/// has to be woken. Those of `Queue` and `SyncQueue` do the same to the queue, for
/// callers that are woken in another way.
pub struct DelayQueue<T: Delayed> {
    queue: Heap<T>,
}

impl<T: Delayed> DelayQueue<T> {
    /// The values with the readings of the clock from which on they may be
    /// popped.
    pub closed spec fn view(&self) -> Multiset<Entry<T>> {
        self.queue@
    }

    /// The invariant.
    pub closed spec fn valid(&self) -> bool {
        self.queue.wf()
    }

    /// The entry that is popped next.
    pub closed spec fn head(&self) -> Entry<T> {
        self.queue.top()
    }

    /// There is a head and its delay has expired when the clock reads `now`.
    pub open spec fn ready(&self, now: u64) -> bool {
        self@.len() > 0 && self.head().time <= now
    }

    /// How long a caller with the deadline `end` may have to wait.
    pub open spec fn wait_until(&self, end: i128) -> int {
        if self@.len() > 0 && self.head().time < end {
            self.head().time as int
        } else {
            end as int
        }
    }

    /// What a turn of taking until the clock reads `end` comes to when it reads `now`.
    pub open spec fn polled(&self, now: u64, end: i128, r: Poll<T>) -> bool {
        &&& r is Elapsed <==> now >= end
        &&& r is Done <==> now < end && self.ready(now)
        &&& r matches Poll::Wait(ms) ==> ms == wait_ms(self.wait_until(end), now as int)
    }

    /// The head was popped, and `r` is its value.
    pub open spec fn popped(&self, after: DelayQueue<T>, r: T) -> bool {
        &&& r == self.head().val
        &&& after@ == self@.remove(self.head())
        &&& self.values().contains(r)
        &&& after.values() == self.values().remove(r)
    }

    /// Whether one of the callers that wait has to be woken when the head is popped:
    /// there is another value for it.
    pub open spec fn pop_wakes(&self) -> bool {
        self@.len() > 1
    }

    /// Whether one of the callers that wait has to be woken when the entry `x` is
    /// pushed: there was none, or it becomes the head.
    pub open spec fn push_wakes(&self, x: Entry<T>) -> bool {
        self@.len() == 0 || x.key() < self.head().key()
    }

    /// The entry `x` is behind all entries.
    pub open spec fn is_behind(&self, x: Entry<T>) -> bool {
        x.last && forall|y: Entry<T>| #[trigger] self@.contains(y) ==> y.time <= x.time
    }

    /// The value `e` was put behind all entries as the entry `x`, when the clock read
    /// `now`: it may be popped once its delay has expired and the latest of the other
    /// entries may be popped.
    pub open spec fn put_behind(&self, e: T, now: u64, x: Entry<T>, after: DelayQueue<T>) -> bool {
        &&& x.val == e
        &&& self.is_behind(x)
        &&& x.time >= now + e.delay_ns()
        &&& x.time == now + e.delay_ns() || exists|y: Entry<T>| #[trigger]
            self@.contains(y) && y.time == x.time
        &&& after@ == self@.insert(x)
    }

    /// The contents are the same.
    pub open spec fn same(&self, after: DelayQueue<T>) -> bool {
        after@ == self@ && after.values() == self.values()
    }

    /// The values.
    pub closed spec fn values(&self) -> Multiset<T> {
        self.queue.values()
    }

    /// The head is the earliest entry.
    pub proof fn lemma_head(&self)
        requires
            self.valid(),
            self@.len() > 0,
        ensures
            earliest(self@, self.head()),
    {
        self.queue.lemma_top();
    }

    /// A queue with an entry is not empty.
    proof fn lemma_not_empty(&self, x: Entry<T>)
        requires
            self@.contains(x),
        ensures
            self@.len() > 0,
    {
        assert(self@.remove(x).insert(x) =~= self@);
    }

    /// There is one value for each entry.
    pub proof fn lemma_values(&self)
        ensures
            self.values().len() == self@.len(),
    {
        self.queue.lemma_values();
    }

    /// Constructs a new `DelayQueue`.
    pub fn new() -> (r: DelayQueue<T>)
        ensures
            r.valid(),
            r@ == Multiset::<Entry<T>>::empty(),
            r.values() == Multiset::<T>::empty(),
    {
        DelayQueue { queue: Heap::new() }
    }

    /// The number of values.
    pub fn len(&self) -> (r: usize)
        ensures
            r == self@.len(),
    {
        self.queue.len()
    }

    /// Pushes a value when the clock reads `now`. Returns whether one of the
    /// callers that wait has to be woken, because the head has changed.
    pub fn offer_at(&mut self, e: T, now: u64) -> (r: bool)
        requires
            old(self).valid(),
            e.delay_ns() >= 0,
        ensures
            final(self).valid(),
            entry(e, now).time == now + e.delay_ns(),
            final(self)@ == old(self)@.insert(entry(e, now)),
            final(self).values() == old(self).values().insert(e),
            r == old(self).push_wakes(entry(e, now)),
    {
        let delay: i128 = e.delay().num_nanoseconds();
        let entry = Entry::new(e, now as i128 + delay);
        let notify = match self.queue.peek() {
            Some(head) => entry.precedes(head),
            None => true,
        };
        self.queue.push(entry);
        notify
    }

    /// Pushes a value now. Returns whether one of the callers that wait has to
    /// be woken.
    pub fn offer_now(&mut self, e: T) -> (r: bool)
        requires
            old(self).valid(),
            e.delay_ns() >= 0,
        ensures
            final(self).valid(),
            final(self).values() == old(self).values().insert(e),
            exists|now: u64|
                #![trigger entry(e, now)]
                entry(e, now).time == now + e.delay_ns() && final(self)@ == old(self)@.insert(
                    entry(e, now),
                ) && r == old(self).push_wakes(entry(e, now)),
    {
        let now: u64 = precise_time_ns();
        self.offer_at(e, now)
    }

    /// Pushes a value when the clock reads `now`, behind all values that are in the
    /// queue and not before its delay has expired. Returns whether one of the callers
    /// that wait has to be woken.
    pub fn put_last_at(&mut self, e: T, now: u64) -> (r: bool)
        requires
            old(self).valid(),
            e.delay_ns() >= 0,
        ensures
            final(self).valid(),
            final(self).values() == old(self).values().insert(e),
            exists|x: Entry<T>| #[trigger]
                old(self).put_behind(e, now, x, *final(self)) && r == old(self).push_wakes(x),
    {
        let due: i128 = now as i128 + e.delay().num_nanoseconds();
        let time: i128 = match self.queue.latest() {
            Some(t) => {
                if t > due {
                    t
                } else {
                    due
                }
            },
            None => due,
        };
        let entry = Entry::behind(e, time);
        let ghost x = entry;
        let notify = match self.queue.peek() {
            Some(head) => entry.precedes(head),
            None => true,
        };
        proof {
            if time != due {
                let y = choose|y: Entry<T>| #[trigger] self.queue@.contains(y) && y.time == time;
                assert(self@.contains(y));
            }
        }
        self.queue.push(entry);
        assert(old(self).put_behind(e, now, x, *self));
        notify
    }

    /// Pops the head. Returns it with whether another of the callers that wait has to
    /// be woken.
    fn finish_pop(&mut self) -> (r: (T, bool))
        requires
            old(self).valid(),
            old(self)@.len() > 0,
        ensures
            final(self).valid(),
            old(self).popped(*final(self), r.0),
            r.1 == old(self).pop_wakes(),
    {
        let notify = self.queue.len() > 1;
        (self.queue.pop().unwrap().val, notify)
    }

    /// Pops the head when the clock reads `now`, if its delay has expired. Returns it
    /// with whether another of the callers that wait has to be woken.
    pub fn poll_at(&mut self, now: u64) -> (r: Option<(T, bool)>)
        requires
            old(self).valid(),
        ensures
            final(self).valid(),
            r is Some <==> old(self).ready(now),
            r matches Some(v) ==> old(self).popped(*final(self), v.0) && v.1 == old(
                self,
            ).pop_wakes(),
            r is None ==> old(self).same(*final(self)),
    {
        match self.queue.peek() {
            Some(e) => {
                if e.time > now as i128 {
                    return None;
                }
            },
            None => {
                return None;
            },
        }
        Some(self.finish_pop())
    }

    /// Pops the head now, if its delay has expired. Returns it with whether another of
    /// the callers that wait has to be woken.
    pub fn poll_now(&mut self) -> (r: Option<(T, bool)>)
        requires
            old(self).valid(),
        ensures
            final(self).valid(),
            exists|now: u64| r is Some <==> #[trigger] old(self).ready(now),
            r matches Some(v) ==> old(self).popped(*final(self), v.0) && v.1 == old(
                self,
            ).pop_wakes(),
            r is None ==> old(self).same(*final(self)),
    {
        let now: u64 = precise_time_ns();
        self.poll_at(now)
    }

    /// The reading of the clock at which a caller that starts at the reading
    /// `now` has waited for `timeout`.
    pub fn deadline_at(now: u64, timeout: Duration) -> (r: i128)
        ensures
            r == now + timeout@,
    {
        now as i128 + timeout.num_nanoseconds()
    }

    /// The reading of the clock at which a caller that starts now has waited for
    /// `timeout`.
    pub fn deadline(timeout: Duration) -> (r: i128)
        ensures
            exists|now: u64| r == #[trigger] (now + timeout@),
    {
        let now: u64 = precise_time_ns();
        Self::deadline_at(now, timeout)
    }

    /// One turn of taking from the queue until the clock reads `end`, when it
    /// reads `now`.
    pub fn poll_timeout_at(&mut self, now: u64, end: i128) -> (r: Poll<T>)
        requires
            old(self).valid(),
        ensures
            final(self).valid(),
            r is Elapsed <==> now >= end,
            r is Done <==> now < end && old(self).ready(now),
            r matches Poll::Done(v, wake) ==> old(self).popped(*final(self), v) && wake == old(
                self,
            ).pop_wakes(),
            r matches Poll::Wait(ms) ==> ms == wait_ms(old(self).wait_until(end), now as int),
            !(r is Done) ==> old(self).same(*final(self)),
    {
        let now: i128 = now as i128;
        if now >= end {
            return Poll::Elapsed;
        }
        let wait_until: i128 = match self.queue.peek() {
            Some(e) => {
                if e.time <= now {
                    let (val, wake) = self.finish_pop();
                    return Poll::Done(val, wake);
                }
                if e.time < end {
                    e.time
                } else {
                    end
                }
            },
            None => end,
        };
        Poll::Wait(((wait_until - now) / NANOS_PER_MS % 0x1_0000_0000) as u32)
    }

    /// One turn of taking from the queue until the clock reads `end`.
    pub fn poll_timeout(&mut self, end: i128) -> (r: Poll<T>)
        requires
            old(self).valid(),
        ensures
            final(self).valid(),
            exists|now: u64|
                {
                    &&& r is Elapsed <==> now >= end
                    &&& r is Done <==> now < end && #[trigger] old(self).ready(now)
                    &&& r matches Poll::Wait(ms) ==> ms == wait_ms(
                        old(self).wait_until(end),
                        now as int,
                    )
                },
            exists|now: u64| #[trigger] old(self).polled(now, end, r),
            r matches Poll::Done(v, wake) ==> old(self).popped(*final(self), v) && wake == old(
                self,
            ).pop_wakes(),
            !(r is Done) ==> old(self).same(*final(self)),
    {
        let now: u64 = precise_time_ns();
        let ghost ready = self.ready(now);
        let r = self.poll_timeout_at(now, end);
        assert(old(self).polled(now, end, r));
        r
    }

    /// One turn of taking from the queue when the clock reads `now`.
    pub fn take_at(&mut self, now: u64) -> (r: Take<T>)
        requires
            old(self).valid(),
        ensures
            final(self).valid(),
            r is Wait <==> old(self)@.len() == 0,
            r is Done <==> old(self).ready(now),
            r matches Take::Done(v, wake) ==> old(self).popped(*final(self), v) && wake == old(
                self,
            ).pop_wakes(),
            r matches Take::WaitTimeout(ms) ==> ms == wait_ms(
                old(self).head().time as int,
                now as int,
            ),
            !(r is Done) ==> old(self).same(*final(self)),
    {
        let now: i128 = now as i128;
        let wait: i128 = match self.queue.peek() {
            Some(e) => {
                if e.time <= now {
                    let (val, wake) = self.finish_pop();
                    return Take::Done(val, wake);
                }
                e.time - now
            },
            None => {
                return Take::Wait;
            },
        };
        Take::WaitTimeout((wait / NANOS_PER_MS % 0x1_0000_0000) as u32)
    }

    /// One turn of taking from the queue.
    pub fn take_now(&mut self) -> (r: Take<T>)
        requires
            old(self).valid(),
        ensures
            final(self).valid(),
            r is Wait <==> old(self)@.len() == 0,
            exists|now: u64|
                {
                    &&& r is Done <==> #[trigger] old(self).ready(now)
                    &&& r matches Take::WaitTimeout(ms) ==> ms == wait_ms(
                        old(self).head().time as int,
                        now as int,
                    )
                },
            r matches Take::Done(v, wake) ==> old(self).popped(*final(self), v) && wake == old(
                self,
            ).pop_wakes(),
            !(r is Done) ==> old(self).same(*final(self)),
    {
        let now: u64 = precise_time_ns();
        self.take_at(now)
    }
}

impl<T: Delayed> Queue<T> for DelayQueue<T> {
    open spec fn wf(&self) -> bool {
        self.valid()
    }

    open spec fn contents(&self) -> Multiset<T> {
        self.values()
    }

    open spec fn full(&self) -> bool {
        false
    }

    open spec fn offered(&self, e: T, after: DelayQueue<T>) -> bool {
        exists|now: u64|
            #![trigger entry(e, now)]
            entry(e, now).time == now + e.delay_ns() && after@ == self@.insert(entry(e, now))
    }

    open spec fn offered_last(&self, e: T, after: DelayQueue<T>) -> bool {
        exists|x: Entry<T>, now: u64| #[trigger] self.put_behind(e, now, x, after)
    }

    open spec fn accepts(e: T) -> bool {
        e.delay_ns() >= 0
    }

    fn poll(&mut self) -> (r: Option<T>)
        ensures
            exists|now: u64| r is Some <==> #[trigger] old(self).ready(now),
            r matches Some(v) ==> old(self).popped(*final(self), v),
            r is None ==> old(self).same(*final(self)),
    {
        match self.poll_now() {
            Some((val, _)) => Some(val),
            None => None,
        }
    }

    fn is_empty(&self) -> (r: bool)
        ensures
            r == (self@.len() == 0),
    {
        proof {
            self.lemma_values();
        }
        self.queue.len() == 0
    }

    fn offer(&mut self, e: T) -> (r: Result<(), T>)
    {
        self.offer_now(e);
        Ok(())
    }
}

impl<T: Delayed> SyncQueue<T> for DelayQueue<T> {
    fn take(&mut self) -> (r: Attempt<T>)
        ensures
            exists|now: u64|
                {
                    &&& r is Done <==> #[trigger] old(self).ready(now)
                    &&& r matches Attempt::WaitTimeout(ms) ==> ms == wait_ms(
                        old(self).head().time as int,
                        now as int,
                    )
                },
            r matches Attempt::Done(v) ==> old(self).popped(*final(self), v),
            !(r is Done) ==> old(self).same(*final(self)),
    {
        proof {
            self.lemma_values();
        }
        match self.take_now() {
            Take::Done(val, _) => Attempt::Done(val),
            Take::Wait => Attempt::Wait,
            Take::WaitTimeout(ms) => Attempt::WaitTimeout(ms),
        }
    }

    fn put(&mut self, e: T) -> (r: Result<(), T>)
    {
        self.offer(e)
    }

    fn put_last(&mut self, e: T) -> (r: Result<(), T>)
    {
        let now: u64 = precise_time_ns();
        self.put_last_at(e, now);
        Ok(())
    }
}

/// A value does not come out before its delay has expired: where the head is a
/// value that was offered at the reading `offered`, it is not ready at a reading
/// before the end of its delay, and ready from then on.
pub proof fn law_ready_after_its_delay<T: Delayed>(q: DelayQueue<T>, e: T, offered: u64, now: u64)
    requires
        q.valid(),
        q@.len() > 0,
        q.head() == entry(e, offered),
        entry(e, offered).time == offered + e.delay_ns(),
    ensures
        q.ready(now) <==> offered + e.delay_ns() <= now,
{
}

/// The value whose delay expired first comes out first: no other value stands
/// before it, and one that comes out later did not expire earlier.
pub proof fn law_earliest_comes_first<T: Delayed>(
    q: DelayQueue<T>,
    after: DelayQueue<T>,
    x: Entry<T>,
)
    requires
        q.valid(),
        q@.contains(x),
        after.valid(),
        after@ == q@.remove(q.head()),
    ensures
        q.head().time <= x.time,
        after@.len() > 0 ==> q.head().time <= after.head().time,
{
    q.lemma_not_empty(x);
    q.lemma_head();
    if after@.len() > 0 {
        after.lemma_head();
        assert(q@.contains(after.head()));
    }
}

/// No entry comes before the head.
pub proof fn law_head_comes_first<T: Delayed>(q: DelayQueue<T>, x: Entry<T>)
    requires
        q.valid(),
        q@.contains(x),
    ensures
        earliest(q@, q.head()),
        q.head().key() <= x.key(),
{
    q.lemma_not_empty(x);
    q.lemma_head();
}

/// A queue with a value whose delay has expired is ready.
pub proof fn law_expired_is_ready<T: Delayed>(q: DelayQueue<T>, x: Entry<T>, now: u64)
    requires
        q.valid(),
        q@.contains(x),
        x.time <= now,
    ensures
        q.ready(now),
{
    q.lemma_not_empty(x);
    q.lemma_head();
}

/// A value that was put behind all others when the clock read `now` comes due: in an empty
/// queue it is the head, ready from the end of its delay on and not before. Otherwise the
/// queue is ready for it once its delay has expired and the latest of the others may be
/// popped, and the value comes after each of these.
pub proof fn law_put_last_comes_due<T: Delayed>(
    q: DelayQueue<T>,
    after: DelayQueue<T>,
    e: T,
    now: u64,
    x: Entry<T>,
)
    requires
        q.put_behind(e, now, x, after),
        after.valid(),
    ensures
        after@.contains(x),
        q@.len() == 0 ==> after.head() == x && forall|t: u64| #[trigger]
            after.ready(t) <==> now + e.delay_ns() <= t,
        forall|rest: DelayQueue<T>, t: u64|
            #![trigger rest.ready(t)]
            rest.valid() && rest@.contains(x) && now + e.delay_ns() <= t && (forall|y: Entry<T>|
                #[trigger] q@.contains(y) ==> y.time <= t) ==> rest.ready(t),
        forall|rest: DelayQueue<T>, y: Entry<T>|
            #![trigger rest.head(), rest@.contains(y)]
            rest.valid() && rest@.contains(y) && q@.contains(y) && !y.last ==> rest.head() != x,
{
    assert(after@.contains(x));
    if q@.len() == 0 {
        after.lemma_not_empty(x);
        after.lemma_head();
        assert(q@ =~= Multiset::<Entry<T>>::empty());
        assert(after.head() == x);
        assert(forall|y: Entry<T>| !(#[trigger] q@.contains(y)));
    }
    assert forall|rest: DelayQueue<T>, t: u64|
        #![trigger rest.ready(t)]
        rest.valid() && rest@.contains(x) && now + e.delay_ns() <= t && (forall|y: Entry<T>|
            #[trigger] q@.contains(y) ==> y.time <= t) implies rest.ready(t) by {
        law_expired_is_ready(rest, x, t);
    }
    assert forall|rest: DelayQueue<T>, y: Entry<T>|
        #![trigger rest.head(), rest@.contains(y)]
        rest.valid() && rest@.contains(y) && q@.contains(y) && !y.last implies rest.head() != x by {
        law_head_comes_first(rest, y);
    }
}

/// A caller that waits for the head is told of every value that takes its place:
/// after an offer that wakes nobody the head is no earlier than it was.
pub proof fn law_waiters_hear_of_a_new_head<T: Delayed>(
    q: DelayQueue<T>,
    after: DelayQueue<T>,
    e: T,
    now: u64,
)
    requires
        q.valid(),
        q@.len() > 0,
        after.valid(),
        after@ == q@.insert(entry(e, now)),
        entry(e, now).key() >= q.head().key(),
    ensures
        after.head().key() == q.head().key(),
{
    q.lemma_head();
    assert(after@.contains(q.head()));
    after.lemma_not_empty(q.head());
    after.lemma_head();
    assert(after.head() == entry(e, now) || q@.contains(after.head()));
}

/// No wake-up is missing: while a value is in the queue, whoever pops another one wakes
/// a caller for it, and whoever pushes one that comes before all others wakes a caller
/// for that.
pub proof fn law_wake_ups_of_a_delay_queue<T: Delayed>(
    q: DelayQueue<T>,
    after: DelayQueue<T>,
    val: T,
    x: Entry<T>,
    pushed: DelayQueue<T>,
)
    requires
        q.valid(),
        pushed.valid(),
        q@.len() > 0 ==> q.popped(after, val),
        pushed@ == q@.insert(x),
    ensures
        q@.len() > 0 ==> (after@.len() > 0 <==> q.pop_wakes()),
        q@.len() == 0 ==> q.push_wakes(x),
        q@.len() > 0 && !q.push_wakes(x) ==> pushed.head().key() == q.head().key(),
{
    if q@.len() > 0 {
        q.lemma_head();
        assert(pushed@.contains(q.head()));
        pushed.lemma_not_empty(q.head());
        pushed.lemma_head();
        assert(pushed@.contains(x));
        assert(pushed.head() == x || q@.contains(pushed.head()));
    }
}

} // verus!
