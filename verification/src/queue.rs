//! What the queues have in common.
use vstd::multiset::Multiset;
use vstd::prelude::*;

verus! {

/// One turn of a blocking retrieval.
#[derive(Debug, PartialEq, Eq)]
pub enum Attempt<T> {
    /// The element was retrieved.
    Done(T),
    /// The caller has to wait until it is notified, then to try again.
    Wait,
    /// The caller has to wait until it is notified, or for the given number of
    /// milliseconds, then to try again.
    WaitTimeout(u32),
}

/// A queue.
pub trait Queue<T>: Sized {
    /// The invariant of the queue.
    spec fn wf(&self) -> bool;

    /// The elements in the queue.
    spec fn contents(&self) -> Multiset<T>;

    /// Whether the queue has no room for another element.
    spec fn full(&self) -> bool;

    /// `after` is a state of this queue after `e` was added to it.
    spec fn offered(&self, e: T, after: Self) -> bool;

    /// `after` is a state of this queue after `e` was added to it behind everything
    /// that was in it.
    spec fn offered_last(&self, e: T, after: Self) -> bool;

    /// Whether a queue of this kind takes `e` at all.
    spec fn accepts(e: T) -> bool;

    /// Retrieves and removes the head of this queue, or returns `None` if the
    /// queue has no element to give.
    fn poll(&mut self) -> (r: Option<T>)
        requires
            old(self).wf(),
        ensures
            final(self).wf(),
            r matches Some(v) ==> old(self).contents().contains(v) && final(self).contents()
                == old(self).contents().remove(v),
            r is None ==> final(self).contents() == old(self).contents(),
    ;

    /// Whether the queue holds no element.
    fn is_empty(&self) -> (r: bool)
        requires
            self.wf(),
        ensures
            r == (self.contents().len() == 0),
    ;

    /// Adds the element `e` to the queue if possible, and hands it back if the
    /// queue is full.
    fn offer(&mut self, e: T) -> (r: Result<(), T>)
        requires
            old(self).wf(),
            Self::accepts(e),
        ensures
            final(self).wf(),
            r is Err <==> old(self).full(),
            r is Ok ==> final(self).contents() == old(self).contents().insert(e),
            r is Ok ==> old(self).offered(e, *final(self)),
            r matches Err(v) ==> v == e && *final(self) == *old(self),
    ;
}

/// A queue whose callers may wait.
pub trait SyncQueue<T>: Queue<T> {
    /// One turn of retrieving and removing the head of this queue.
    fn take(&mut self) -> (r: Attempt<T>)
        requires
            old(self).wf(),
        ensures
            final(self).wf(),
            r matches Attempt::Done(v) ==> old(self).contents().contains(v)
                && final(self).contents() == old(self).contents().remove(v),
            !(r is Done) ==> final(self).contents() == old(self).contents(),
            old(self).contents().len() == 0 ==> r is Wait,
            r is Wait ==> old(self).contents().len() == 0,
    ;

    /// One turn of adding the element `e`. If the queue is full the element
    /// comes back: the caller has to wait until it is notified, then to try
    /// again.
    fn put(&mut self, e: T) -> (r: Result<(), T>)
        requires
            old(self).wf(),
            Self::accepts(e),
        ensures
            final(self).wf(),
            r is Err <==> old(self).full(),
            r is Ok ==> final(self).contents() == old(self).contents().insert(e),
            r is Ok ==> old(self).offered(e, *final(self)),
            r matches Err(v) ==> v == e && *final(self) == *old(self),
    ;

    /// One turn of adding the element `e` so that it comes out after everything that
    /// is in the queue. If the queue is full the element comes back.
    fn put_last(&mut self, e: T) -> (r: Result<(), T>)
        requires
            old(self).wf(),
            Self::accepts(e),
        ensures
            final(self).wf(),
            r is Err <==> old(self).full(),
            r is Ok ==> final(self).contents() == old(self).contents().insert(e),
            r is Ok ==> old(self).offered_last(e, *final(self)),
            r matches Err(v) ==> v == e && *final(self) == *old(self),
    ;
}

} // verus!
