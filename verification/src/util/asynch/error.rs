//! How an asynchronous computation fails.
use vstd::prelude::*;

verus! {

/// The result of an asynchronous computation.
pub type AsyncResult<T, E> = Result<T, AsyncError<E>>;

/// Why an asynchronous computation has no value.
#[derive(Debug, PartialEq, Eq)]
pub enum AsyncError<E> {
    /// The computation itself failed.
    ExecutionError(E),
    /// One side gave up the computation.
    CancellationError,
}

impl<E> AsyncError<E> {
    /// The failure of the computation with `err`.
    pub fn wrap(err: E) -> (r: AsyncError<E>)
        ensures
            r == AsyncError::ExecutionError(err),
    {
        AsyncError::ExecutionError(err)
    }

    /// The error of a computation that was given up.
    pub fn canceled() -> (r: AsyncError<E>)
        ensures
            r == AsyncError::<E>::CancellationError,
    {
        AsyncError::CancellationError
    }

    /// Whether the computation was given up.
    pub fn is_cancellation(&self) -> (r: bool)
        ensures
            r == (self is CancellationError),
    {
        match *self {
            AsyncError::CancellationError => true,
            _ => false,
        }
    }

    /// Whether the computation itself failed.
    pub fn is_execution_error(&self) -> (r: bool)
        ensures
            r == (self is ExecutionError),
    {
        match *self {
            AsyncError::ExecutionError(..) => true,
            _ => false,
        }
    }

    /// The error that the computation failed with.
    pub fn unwrap(self) -> (r: E)
        requires
            self is ExecutionError,
        ensures
            self == AsyncError::ExecutionError(r),
    {
        match self {
            AsyncError::ExecutionError(err) => err,
            AsyncError::CancellationError => vstd::pervasive::unreached(),
        }
    }

    /// The error that the computation failed with, if it failed itself.
    pub fn take(self) -> (r: Option<E>)
        ensures
            r == match self {
                AsyncError::ExecutionError(err) => Some(err),
                AsyncError::CancellationError => None,
            },
    {
        match self {
            AsyncError::ExecutionError(err) => Some(err),
            _ => None,
        }
    }
}

/// An error that is wrapped comes out of `unwrap` and `take` again.
pub proof fn law_wrap_then_take<E>(err: E, wrapped: AsyncError<E>, unwrapped: E, taken: Option<E>)
    requires
        call_ensures(AsyncError::<E>::wrap, (err,), wrapped),
        call_ensures(AsyncError::<E>::unwrap, (wrapped,), unwrapped),
        call_ensures(AsyncError::<E>::take, (wrapped,), taken),
    ensures
        unwrapped == err,
        taken == Some(err),
{
}

/// Every error is of exactly one kind.
pub proof fn law_one_kind<E>(e: AsyncError<E>)
    ensures
        (e is CancellationError) != (e is ExecutionError),
{
}

/// What was wrapped fails, what was canceled does not, and each error says which of the two it is.
/// A canceled one holds no error.
pub proof fn law_errors_are_told_apart<E>(
    err: E,
    wrapped: AsyncError<E>,
    canceled: AsyncError<E>,
    e: AsyncError<E>,
    cancellation: bool,
    execution: bool,
    taken: Option<E>,
)
    requires
        call_ensures(AsyncError::<E>::wrap, (err,), wrapped),
        call_ensures(AsyncError::<E>::canceled, (), canceled),
        call_ensures(AsyncError::<E>::is_cancellation, (&e,), cancellation),
        call_ensures(AsyncError::<E>::is_execution_error, (&e,), execution),
        call_ensures(AsyncError::<E>::take, (e,), taken),
    ensures
        cancellation <==> !execution,
        e == wrapped ==> execution && taken == Some(err),
        e == canceled ==> cancellation,
        cancellation ==> taken is None,
        execution ==> taken is Some && e == AsyncError::ExecutionError(taken->0),
{
}

} // verus!
