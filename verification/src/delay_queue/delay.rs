//! Values with a delay.
use vstd::prelude::*;
use crate::duration::Duration;

verus! {

/// A value that should not be used until the delay has expired.
pub trait Delayed {
    /// The delay in nanoseconds.
    spec fn delay_ns(&self) -> int;

    /// Returns the delay associated with the value.
    fn delay(&self) -> (r: Duration)
        ensures
            r@ == self.delay_ns(),
    ;
}

impl<T: Delayed> Delayed for Option<T> {
    open spec fn delay_ns(&self) -> int {
        match *self {
            Some(v) => v.delay_ns(),
            None => 0,
        }
    }

    fn delay(&self) -> (r: Duration) {
        match self {
            Some(v) => v.delay(),
            None => Duration::nanoseconds(0),
        }
    }
}

/// Associate a delay with a value.
#[derive(Debug, PartialEq, Eq, PartialOrd, Ord)]
pub struct Delay<T>(pub T, pub Duration);

impl<T> Delay<T> {
    /// Moves the value out of the `Delay<T>`.
    pub fn unwrap(self) -> (r: T)
        ensures
            r == self.0,
    {
        self.0
    }

    /// The value, to be changed in place.
    pub fn deref_mut(&mut self) -> (r: &mut T)
        ensures
            *r == old(self).0,
            final(self).0 == *final(r),
            final(self).1 == old(self).1,
    {
        &mut self.0
    }
}

impl<T> core::ops::Deref for Delay<T> {
    type Target = T;

    /// The value.
    fn deref(&self) -> (r: &T)
        ensures
            *r == self.0,
    {
        &self.0
    }
}

impl<T> Delayed for Delay<T> {
    open spec fn delay_ns(&self) -> int {
        self.1@
    }

    fn delay(&self) -> (r: Duration) {
        self.1
    }
}

} // verus!
