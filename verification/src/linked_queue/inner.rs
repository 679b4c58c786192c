//! The queue.
use vstd::multiset::Multiset;
use vstd::prelude::*;
use crate::linked_queue::list::List;
use crate::linked_queue::timeout::Timeout;
use crate::queue::{Attempt, Queue, SyncQueue};

verus! {

/// One turn of a retrieval that waits no longer than its timeout.
#[derive(Debug, PartialEq, Eq)]
pub enum TimedTake<T> {
    /// The element was retrieved. The flag says whether a producer that waits has to
    /// be woken.
    Done(T, bool),
    /// The queue is empty and no time is left.
    Elapsed,
    /// The queue is empty: the caller has to wait until it is notified, or for
    /// the given number of milliseconds, then to update its timeout and try
    /// again.
    Wait(u64),
}

/// One turn of an addition that waits no longer than its timeout.
#[derive(Debug, PartialEq, Eq)]
pub enum TimedPut<T> {
    /// The element was added. The flag says whether a consumer that waits has to be
    /// woken.
    Done(bool),
    /// The queue is full and no time is left. The element comes back.
    Elapsed(T),
    /// The queue is full: the caller has to wait until it is notified, or for
    /// the given number of milliseconds, then to update its timeout and try
    /// again with the element that came back.
    Wait(T, u64),
}

/// A queue in which values are contained by a linked list.
///
/// A caller that has to wait registers before it does, with `consumer_waits` or
/// `producer_waits`, and signs off when it goes on, with `consumer_resumes` or
/// `producer_resumes`. The operations that wait, and `poll_notify` and `offer_notify`,
/// say whether somebody has to be woken. The others do the same to the queue, for
/// callers that are woken in another way.
pub struct LinkedQueue<T> {
    list: List<T>,
    capacity: usize,
    consumer_waiting: usize,
    producer_waiting: usize,
}

/// What a `LinkedQueue` is.
#[verifier::ext_equal]
pub ghost struct LinkedQueueView<T> {
    /// The elements, the head first.
    pub items: Seq<T>,
    /// The greatest number of elements.
    pub capacity: nat,
    /// The number of consumers that wait.
    pub consumers: nat,
    /// The number of producers that wait.
    pub producers: nat,
}

impl<T> LinkedQueueView<T> {
    /// The queue has no room.
    pub open spec fn full(self) -> bool {
        self.items.len() >= self.capacity
    }

    /// The queue without its head.
    pub open spec fn popped(self) -> LinkedQueueView<T> {
        LinkedQueueView { items: self.items.drop_first(), ..self }
    }

    /// The queue with `e` at its end.
    pub open spec fn pushed(self, e: T) -> LinkedQueueView<T> {
        LinkedQueueView { items: self.items.push(e), ..self }
    }

    /// The queue with `n` more consumers that wait.
    pub open spec fn more_consumers(self, n: int) -> LinkedQueueView<T> {
        LinkedQueueView { consumers: (self.consumers + n) as nat, ..self }
    }

    /// The queue with `n` more producers that wait.
    pub open spec fn more_producers(self, n: int) -> LinkedQueueView<T> {
        LinkedQueueView { producers: (self.producers + n) as nat, ..self }
    }
}

impl<T> LinkedQueue<T> {
    /// What the queue is.
    pub closed spec fn view(&self) -> LinkedQueueView<T> {
        LinkedQueueView {
            items: self.list@,
            capacity: self.capacity as nat,
            consumers: self.consumer_waiting as nat,
            producers: self.producer_waiting as nat,
        }
    }

    /// The list is sound and holds no more elements than it may.
    pub closed spec fn valid(&self) -> bool {
        &&& self.list.wf()
        &&& self.list@.len() <= self.capacity
    }

    /// A valid queue holds no more elements than its capacity.
    pub proof fn lemma_valid(&self)
        requires
            self.valid(),
        ensures
            self@.items.len() <= self@.capacity <= usize::MAX,
            self@.consumers <= usize::MAX,
            self@.producers <= usize::MAX,
    {
    }

    /// A queue without a limit.
    pub fn new() -> (r: LinkedQueue<T>)
        ensures
            r.valid(),
            r@.items == Seq::<T>::empty(),
            r@.capacity == usize::MAX,
            r@.consumers == 0,
            r@.producers == 0,
    {
        LinkedQueue::with_capacity(usize::MAX)
    }

    /// A queue of at most `capacity` elements.
    pub fn with_capacity(capacity: usize) -> (r: LinkedQueue<T>)
        ensures
            r.valid(),
            r@.items == Seq::<T>::empty(),
            r@.capacity == capacity,
            r@.consumers == 0,
            r@.producers == 0,
    {
        LinkedQueue { list: List::new(), capacity, consumer_waiting: 0, producer_waiting: 0 }
    }

    /// The number of elements.
    pub fn len(&self) -> (r: usize)
        requires
            self.valid(),
        ensures
            r == self@.items.len(),
    {
        self.list.size()
    }

    /// Takes from the queue, or returns `None` if the queue is empty.
    pub fn take_opt(&mut self) -> (r: Option<T>)
        requires
            old(self).valid(),
        ensures
            final(self).valid(),
            r is None <==> old(self)@.items.len() == 0,
            r is None ==> final(self)@ == old(self)@,
            r matches Some(v) ==> v == old(self)@.items[0] && final(self)@ == old(self)@.popped(),
    {
        match self.list.pop_head() {
            Some(link) => Some(link.val),
            None => None,
        }
    }

    /// Puts an element into the queue, or hands it back if the queue is full.
    pub fn put_opt(&mut self, val: T) -> (r: Result<(), T>)
        requires
            old(self).valid(),
        ensures
            final(self).valid(),
            r is Err <==> old(self)@.full(),
            r matches Err(v) ==> v == val && *final(self) == *old(self),
            r is Ok ==> final(self)@ == old(self)@.pushed(val),
    {
        self.list.push_tail(val, self.capacity)
    }

    /// Takes from the queue, or returns `None` if the queue is empty. The flag says
    /// whether a producer that waits has to be woken.
    pub fn poll_notify(&mut self) -> (r: Option<(T, bool)>)
        requires
            old(self).valid(),
        ensures
            final(self).valid(),
            r is None <==> old(self)@.items.len() == 0,
            r is None ==> final(self)@ == old(self)@,
            r matches Some(v) ==> v.0 == old(self)@.items[0] && final(self)@ == old(self)@.popped()
                && v.1 == (old(self)@.producers > 0),
    {
        match self.take_opt() {
            Some(val) => Some((val, self.producer_notify())),
            None => None,
        }
    }

    /// Puts an element into the queue, or hands it back if the queue is full. The flag
    /// says whether a consumer that waits has to be woken.
    pub fn offer_notify(&mut self, val: T) -> (r: Result<bool, T>)
        requires
            old(self).valid(),
        ensures
            final(self).valid(),
            r is Err <==> old(self)@.full(),
            r matches Err(v) ==> v == val && *final(self) == *old(self),
            r matches Ok(wake) ==> final(self)@ == old(self)@.pushed(val) && wake == (old(
                self,
            )@.consumers > 0),
    {
        match self.put_opt(val) {
            Ok(_) => Ok(self.consumer_notify()),
            Err(v) => Err(v),
        }
    }

    /// One turn of taking from the queue for as long as `timeout` allows.
    pub fn take_wait(&mut self, timeout: &Timeout) -> (r: TimedTake<T>)
        requires
            old(self).valid(),
        ensures
            final(self).valid(),
            r is Done <==> old(self)@.items.len() > 0,
            r is Elapsed <==> old(self)@.items.len() == 0 && timeout.remaining() == 0,
            r matches TimedTake::Done(v, wake) ==> v == old(self)@.items[0] && final(self)@ == old(
                self,
            )@.popped() && wake == (old(self)@.producers > 0),
            r matches TimedTake::Wait(ms) ==> ms == timeout.remaining(),
            !(r is Done) ==> final(self)@ == old(self)@,
    {
        match self.poll_notify() {
            Some((val, wake)) => TimedTake::Done(val, wake),
            None => {
                if timeout.is_elapsed() {
                    return TimedTake::Elapsed;
                }
                TimedTake::Wait(timeout.remaining_ms())
            },
        }
    }

    /// One turn of putting an element into the queue for as long as `timeout`
    /// allows.
    pub fn put_wait(&mut self, val: T, timeout: &Timeout) -> (r: TimedPut<T>)
        requires
            old(self).valid(),
        ensures
            final(self).valid(),
            r is Done <==> !old(self)@.full(),
            r is Elapsed <==> old(self)@.full() && timeout.remaining() == 0,
            r matches TimedPut::Done(wake) ==> final(self)@ == old(self)@.pushed(val) && wake == (
            old(self)@.consumers > 0),
            r matches TimedPut::Elapsed(v) ==> v == val,
            r matches TimedPut::Wait(v, ms) ==> v == val && ms == timeout.remaining(),
            !(r is Done) ==> final(self)@ == old(self)@,
    {
        match self.offer_notify(val) {
            Ok(wake) => TimedPut::Done(wake),
            Err(v) => {
                if timeout.is_elapsed() {
                    return TimedPut::Elapsed(v);
                }
                TimedPut::Wait(v, timeout.remaining_ms())
            },
        }
    }

    /// The number of consumers that wait.
    pub fn consumer_waiting(&self) -> (r: usize)
        ensures
            r == self@.consumers,
    {
        self.consumer_waiting
    }

    /// The number of producers that wait.
    pub fn producer_waiting(&self) -> (r: usize)
        ensures
            r == self@.producers,
    {
        self.producer_waiting
    }

    /// A consumer is about to wait.
    pub fn consumer_waits(&mut self)
        requires
            old(self).valid(),
            old(self)@.consumers < usize::MAX,
        ensures
            final(self).valid(),
            final(self)@ == old(self)@.more_consumers(1),
    {
        self.consumer_waiting += 1;
    }

    /// A consumer has waited.
    pub fn consumer_resumes(&mut self)
        requires
            old(self).valid(),
            old(self)@.consumers > 0,
        ensures
            final(self).valid(),
            final(self)@ == old(self)@.more_consumers(-1),
    {
        self.consumer_waiting -= 1;
    }

    /// A producer is about to wait.
    pub fn producer_waits(&mut self)
        requires
            old(self).valid(),
            old(self)@.producers < usize::MAX,
        ensures
            final(self).valid(),
            final(self)@ == old(self)@.more_producers(1),
    {
        self.producer_waiting += 1;
    }

    /// A producer has waited.
    pub fn producer_resumes(&mut self)
        requires
            old(self).valid(),
            old(self)@.producers > 0,
        ensures
            final(self).valid(),
            final(self)@ == old(self)@.more_producers(-1),
    {
        self.producer_waiting -= 1;
    }

    /// Whether there is a producer to wake.
    pub fn producer_notify(&self) -> (r: bool)
        ensures
            r == (self@.producers > 0),
    {
        self.producer_waiting > 0
    }

    /// Whether there is a consumer to wake.
    pub fn consumer_notify(&self) -> (r: bool)
        ensures
            r == (self@.consumers > 0),
    {
        self.consumer_waiting > 0
    }
}

impl<T> Queue<T> for LinkedQueue<T> {
    open spec fn wf(&self) -> bool {
        self.valid()
    }

    open spec fn contents(&self) -> Multiset<T> {
        self@.items.to_multiset()
    }

    open spec fn full(&self) -> bool {
        self@.full()
    }

    open spec fn offered(&self, e: T, after: LinkedQueue<T>) -> bool {
        after@ == self@.pushed(e)
    }

    open spec fn offered_last(&self, e: T, after: LinkedQueue<T>) -> bool {
        after@ == self@.pushed(e)
    }

    open spec fn accepts(e: T) -> bool {
        true
    }

    fn poll(&mut self) -> (r: Option<T>)
        ensures
            r is None <==> old(self)@.items.len() == 0,
            r is None ==> final(self)@ == old(self)@,
            r matches Some(v) ==> v == old(self)@.items[0] && final(self)@ == old(self)@.popped(),
    {
        broadcast use vstd::seq_lib::group_to_multiset_ensures;

        assert(self@.items.len() > 0 ==> self@.items.drop_first() =~= self@.items.remove(0));
        assert(self@.items.len() > 0 ==> self@.items.contains(self@.items[0]));
        self.take_opt()
    }

    fn is_empty(&self) -> (r: bool)
        ensures
            r == (self@.items.len() == 0),
    {
        broadcast use vstd::seq_lib::group_to_multiset_ensures;

        self.len() == 0
    }

    fn offer(&mut self, e: T) -> (r: Result<(), T>)
    {
        broadcast use vstd::seq_lib::group_to_multiset_ensures;

        self.put_opt(e)
    }
}

impl<T> SyncQueue<T> for LinkedQueue<T> {
    fn take(&mut self) -> (r: Attempt<T>)
        ensures
            r is Wait <==> old(self)@.items.len() == 0,
            r is Wait ==> final(self)@ == old(self)@,
            r is Wait || r is Done,
            r matches Attempt::Done(v) ==> v == old(self)@.items[0] && final(self)@ == old(
                self,
            )@.popped(),
    {
        broadcast use vstd::seq_lib::group_to_multiset_ensures;

        match self.poll() {
            Some(val) => Attempt::Done(val),
            None => Attempt::Wait,
        }
    }

    fn put(&mut self, e: T) -> (r: Result<(), T>)
    {
        self.offer(e)
    }

    fn put_last(&mut self, e: T) -> (r: Result<(), T>)
    {
        self.offer(e)
    }
}

/// The queue after `n` retrievals.
pub open spec fn after_takes<T>(q: LinkedQueueView<T>, n: nat) -> LinkedQueueView<T>
    decreases n,
{
    if n == 0 {
        q
    } else {
        after_takes(q.popped(), (n - 1) as nat)
    }
}

/// The queue after the elements of `es` were added, the first one first.
pub open spec fn after_puts<T>(q: LinkedQueueView<T>, es: Seq<T>) -> LinkedQueueView<T>
    decreases es.len(),
{
    if es.len() == 0 {
        q
    } else {
        after_puts(q, es.drop_last()).pushed(es.last())
    }
}

/// Elements come out in the order in which they went in: an element is at the
/// head once exactly those that were before it are gone.
pub proof fn law_first_in_first_out<T>(q: LinkedQueueView<T>, es: Seq<T>, i: int)
    requires
        0 <= i < es.len(),
    ensures
        after_takes(after_puts(q, es), (q.items.len() + i) as nat).items[0] == es[i],
        after_takes(after_puts(q, es), (q.items.len() + es.len()) as nat).items.len() == 0,
{
    lemma_after_puts(q, es);
    lemma_after_takes(after_puts(q, es), (q.items.len() + i) as nat);
    lemma_after_takes(after_puts(q, es), (q.items.len() + es.len()) as nat);
}

/// What was added stands behind what was there.
proof fn lemma_after_puts<T>(q: LinkedQueueView<T>, es: Seq<T>)
    ensures
        after_puts(q, es).items =~= q.items + es,
    decreases es.len(),
{
    if es.len() > 0 {
        lemma_after_puts(q, es.drop_last());
        assert(es =~= es.drop_last().push(es.last()));
    }
}

/// What was retrieved stood at the front.
proof fn lemma_after_takes<T>(q: LinkedQueueView<T>, n: nat)
    requires
        n <= q.items.len(),
    ensures
        after_takes(q, n).items =~= q.items.skip(n as int),
    decreases n,
{
    if n > 0 {
        lemma_after_takes(q.popped(), (n - 1) as nat);
    }
}

/// A full queue has room again as soon as one element is taken, and a queue
/// that is not full stays within its capacity when one is put.
pub proof fn law_capacity<T>(q: LinkedQueueView<T>, e: T)
    requires
        q.items.len() <= q.capacity,
    ensures
        q.full() && q.capacity > 0 ==> !q.popped().full(),
        !q.full() ==> q.pushed(e).items.len() <= q.capacity,
        q.full() <==> q.items.len() == q.capacity,
{
}

/// Waiting leaves no trace: once a caller has resumed, the queue counts the
/// callers that it counted before.
pub proof fn law_waiting_is_undone<T>(q: LinkedQueueView<T>)
    ensures
        q.more_consumers(1).more_consumers(-1) == q,
        q.more_producers(1).more_producers(-1) == q,
{
}

/// Whoever waits is heard of: a consumer that waits is counted when an element is
/// put, and a producer that waits when one is taken.
pub proof fn law_waiters_are_notified<T>(q: LinkedQueueView<T>, e: T)
    ensures
        q.more_consumers(1).pushed(e).consumers > 0,
        q.more_producers(1).popped().producers > 0,
        q.pushed(e).consumers == q.consumers,
        q.popped().producers == q.producers,
{
}

} // verus!
