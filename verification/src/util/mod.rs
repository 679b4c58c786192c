//! Utilities for asynchronous and concurrent computations.
pub mod asynch;
pub mod atomic;

use crate::linked_queue::LinkedQueue;
use crate::queue::Attempt;
use vstd::prelude::*;

verus! {

/// What values can be taken from.
pub trait Consume<T>: Sized {
    /// The invariant.
    spec fn sound(&self) -> bool;

    /// The values that can be taken, the next one first.
    spec fn pending(&self) -> Seq<T>;

    /// Takes the next value if there is one.
    fn poll(&mut self) -> (r: Option<T>)
        requires
            old(self).sound(),
        ensures
            final(self).sound(),
            r is None <==> old(self).pending().len() == 0,
            r is None ==> final(self).pending() == old(self).pending(),
            r matches Some(v) ==> v == old(self).pending()[0] && final(self).pending() == old(
                self,
            ).pending().drop_first(),
    ;

    /// One turn of taking the next value, waiting until there is one.
    fn take(&mut self) -> (r: Attempt<T>)
        requires
            old(self).sound(),
        ensures
            final(self).sound(),
            r is Done <==> old(self).pending().len() > 0,
            r is Wait <==> old(self).pending().len() == 0,
            r is Wait ==> final(self).pending() == old(self).pending(),
            r matches Attempt::Done(v) ==> v == old(self).pending()[0] && final(self).pending()
                == old(self).pending().drop_first(),
    ;
}

impl<T> Consume<T> for LinkedQueue<T> {
    open spec fn sound(&self) -> bool {
        self.valid()
    }

    open spec fn pending(&self) -> Seq<T> {
        self@.items
    }

    fn poll(&mut self) -> (r: Option<T>) {
        self.take_opt()
    }

    fn take(&mut self) -> (r: Attempt<T>) {
        match self.take_opt() {
            Some(val) => Attempt::Done(val),
            None => Attempt::Wait,
        }
    }
}

} // verus!
