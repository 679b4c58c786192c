//! What futures have in common.
use vstd::prelude::*;

verus! {

/// The result of a future.
pub type FutureResult<T> = Result<T, FutureError>;

/// Why a future has no value.
#[derive(Clone, Copy, Debug, PartialEq, Eq)]
pub struct FutureError {
    pub kind: FutureErrorKind,
    pub desc: &'static str,
}

/// The kinds of errors of a future.
#[derive(Clone, Copy, Debug, PartialEq, Eq)]
pub enum FutureErrorKind {
    ExecutionError,
    CancelationError,
}

impl FutureError {
    /// Whether the consumer gave up the future.
    pub fn is_cancelation_error(&self) -> (r: bool)
        ensures
            r == (self.kind is CancelationError),
    {
        match self.kind {
            FutureErrorKind::CancelationError => true,
            _ => false,
        }
    }

    /// Whether the producer failed.
    pub fn is_execution_error(&self) -> (r: bool)
        ensures
            r == (self.kind is ExecutionError),
    {
        match self.kind {
            FutureErrorKind::ExecutionError => true,
            _ => false,
        }
    }
}

/// One side of a future that can be given up. Both sides share the cell `S`.
pub trait Cancel<S>: Sized {
    /// What has to happen outside.
    type Notice;

    /// Whether `self` is a side of the future in `cell` that can be given up.
    spec fn may_cancel(&self, cell: S) -> bool;

    /// `cell` has become `after` by giving up, and `notice` is owed.
    spec fn canceled(&self, cell: S, after: S, notice: Self::Notice) -> bool;

    /// If not already completed, signals that this side is no longer interested
    /// in the result of the future.
    fn cancel(self, cell: &mut S) -> (r: Self::Notice)
        requires
            self.may_cancel(*old(cell)),
        ensures
            self.canceled(*old(cell), *final(cell), r),
    ;
}

/// One side of a future that can be told of what the other side does. Both sides
/// share the cell `S`.
pub trait Future<S>: Sized {
    /// What to call.
    type Callback;

    /// What a turn of receiving comes to.
    type Step;

    /// Whether `self` is a side of the future in `cell` that can receive.
    spec fn may_receive(&self, cell: S) -> bool;

    /// `cell` has become `after` by a turn of receiving, which came to `step`.
    spec fn received(
        &self,
        cell: S,
        cb: Self::Callback,
        after: S,
        step: Self::Step,
    ) -> bool;

    /// One turn of having the supplied function called when the future is
    /// complete.
    fn receive(self, cell: &mut S, cb: Self::Callback) -> (r: Self::Step)
        requires
            self.may_receive(*old(cell)),
        ensures
            self.received(*old(cell), cb, *final(cell), r),
    ;
}

/// One side of a future that can wait for what the other side does. Both sides
/// share the cell `S`.
pub trait SyncFuture<S>: Sized {
    /// The thread that waits.
    type Thread;

    /// What a turn of taking comes to.
    type Step;

    /// Whether `self` is a side of the future in `cell` that can take.
    spec fn may_take(&self, cell: S) -> bool;

    /// `cell` has become `after` by a turn of taking, which came to `step`.
    spec fn took(
        &self,
        cell: S,
        thread: Self::Thread,
        after: S,
        step: Self::Step,
    ) -> bool;

    /// The first turn of getting the value from the future, blocking if
    /// necessary.
    fn take(self, cell: &mut S, thread: Self::Thread) -> (r: Self::Step)
        requires
            self.may_take(*old(cell)),
        ensures
            self.took(*old(cell), thread, *final(cell), r),
    ;
}

} // verus!
