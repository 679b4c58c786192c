//! Values that may be asynchronous.
use super::error::{AsyncError, AsyncResult};
use vstd::prelude::*;

verus! {

/// The right to take back what was registered.
pub trait Cancel<A>: Sized {
    /// What comes back.
    spec fn regained(&self) -> Option<A>;

    /// Takes back what was registered, if that is still possible.
    fn cancel(self) -> (r: Option<A>)
        ensures
            r == self.regained(),
    ;
}

impl<A> Cancel<A> for Option<A> {
    open spec fn regained(&self) -> Option<A> {
        *self
    }

    fn cancel(self) -> (r: Option<A>) {
        self
    }
}

/// A value representing an asynchronous computation.
pub trait Async: Sized {
    type Value;

    type Error;

    /// The computation is complete.
    spec fn resolved(&self) -> bool;

    /// What the computation came to.
    spec fn outcome(&self) -> AsyncResult<Self::Value, Self::Error>;

    /// Returns true if `poll` will succeed.
    fn is_ready(&self) -> (r: bool)
        ensures
            r == self.resolved(),
    ;

    /// Returns true if the async value is ready and has failed.
    fn is_err(&self) -> (r: bool)
        ensures
            r == (self.resolved() && self.outcome() is Err),
    ;

    /// Get the underlying value if present.
    fn poll(self) -> (r: Result<AsyncResult<Self::Value, Self::Error>, Self>)
        ensures
            r is Ok <==> self.resolved(),
            r matches Ok(res) ==> res == self.outcome(),
            r matches Err(a) ==> a == self,
    ;

    /// Get the underlying value of a computation that is complete.
    fn expect(self) -> (r: AsyncResult<Self::Value, Self::Error>)
        requires
            self.resolved(),
        ensures
            r == self.outcome(),
    {
        match self.poll() {
            Ok(res) => res,
            Err(_) => vstd::pervasive::unreached(),
        }
    }

    /// Invokes the given function with the value if it is ready to be consumed.
    /// Otherwise both come back, to be registered.
    fn ready<F: FnOnce(Self)>(self, f: F) -> (r: Result<Option<Self>, (Self, F)>)
        requires
            self.resolved() ==> call_requires(f, (self,)),
        ensures
            self.resolved() ==> r == Ok::<Option<Self>, (Self, F)>(None) && call_ensures(
                f,
                (self,),
                (),
            ),
            !self.resolved() ==> r == Err::<Option<Self>, (Self, F)>((self, f)),
    {
        if self.is_ready() {
            f(self);
            Ok(None)
        } else {
            Err((self, f))
        }
    }

    /// Invoke the callback with the result if the computation is complete.
    /// Otherwise both come back, to be registered.
    fn receive<F: FnOnce(AsyncResult<Self::Value, Self::Error>)>(self, f: F) -> (r: Result<
        (),
        (Self, F),
    >)
        requires
            self.resolved() ==> call_requires(f, (self.outcome(),)),
        ensures
            self.resolved() ==> r is Ok && call_ensures(f, (self.outcome(),), ()),
            !self.resolved() ==> r == Err::<(), (Self, F)>((self, f)),
    {
        match self.poll() {
            Ok(res) => {
                f(res);
                Ok(())
            },
            Err(this) => Err((this, f)),
        }
    }

    /// One turn of waiting for the result: the value comes back while the computation
    /// is not complete.
    fn wait(self) -> (r: Result<AsyncResult<Self::Value, Self::Error>, Self>)
        ensures
            self.resolved() ==> r == Ok::<AsyncResult<Self::Value, Self::Error>, Self>(
                self.outcome(),
            ),
            !self.resolved() ==> r == Err::<AsyncResult<Self::Value, Self::Error>, Self>(self),
    {
        self.poll()
    }
}

/// A result is a computation that is complete.
impl<T, E> Async for Result<T, AsyncError<E>> {
    type Value = T;

    type Error = E;

    open spec fn resolved(&self) -> bool {
        true
    }

    open spec fn outcome(&self) -> AsyncResult<T, E> {
        *self
    }

    fn is_ready(&self) -> (r: bool) {
        true
    }

    fn is_err(&self) -> (r: bool) {
        match self {
            Ok(_) => false,
            Err(_) => true,
        }
    }

    fn poll(self) -> (r: Result<AsyncResult<T, E>, AsyncResult<T, E>>) {
        Ok(self)
    }
}

impl Async for () {
    type Value = ();

    type Error = ();

    open spec fn resolved(&self) -> bool {
        true
    }

    open spec fn outcome(&self) -> AsyncResult<(), ()> {
        Ok(*self)
    }

    fn is_ready(&self) -> (r: bool) {
        true
    }

    fn is_err(&self) -> (r: bool) {
        false
    }

    fn poll(self) -> (r: Result<AsyncResult<(), ()>, ()>) {
        Ok(Ok(self))
    }
}

impl Async for bool {
    type Value = bool;

    type Error = ();

    open spec fn resolved(&self) -> bool {
        true
    }

    open spec fn outcome(&self) -> AsyncResult<bool, ()> {
        Ok(*self)
    }

    fn is_ready(&self) -> (r: bool) {
        true
    }

    fn is_err(&self) -> (r: bool) {
        false
    }

    fn poll(self) -> (r: Result<AsyncResult<bool, ()>, bool>) {
        Ok(Ok(self))
    }
}

impl Async for String {
    type Value = String;

    type Error = ();

    open spec fn resolved(&self) -> bool {
        true
    }

    open spec fn outcome(&self) -> AsyncResult<String, ()> {
        Ok(*self)
    }

    fn is_ready(&self) -> (r: bool) {
        true
    }

    fn is_err(&self) -> (r: bool) {
        false
    }

    fn poll(self) -> (r: Result<AsyncResult<String, ()>, String>) {
        Ok(Ok(self))
    }
}

impl Async for u8 {
    type Value = u8;

    type Error = ();

    open spec fn resolved(&self) -> bool {
        true
    }

    open spec fn outcome(&self) -> AsyncResult<u8, ()> {
        Ok(*self)
    }

    fn is_ready(&self) -> (r: bool) {
        true
    }

    fn is_err(&self) -> (r: bool) {
        false
    }

    fn poll(self) -> (r: Result<AsyncResult<u8, ()>, u8>) {
        Ok(Ok(self))
    }
}

impl Async for u16 {
    type Value = u16;

    type Error = ();

    open spec fn resolved(&self) -> bool {
        true
    }

    open spec fn outcome(&self) -> AsyncResult<u16, ()> {
        Ok(*self)
    }

    fn is_ready(&self) -> (r: bool) {
        true
    }

    fn is_err(&self) -> (r: bool) {
        false
    }

    fn poll(self) -> (r: Result<AsyncResult<u16, ()>, u16>) {
        Ok(Ok(self))
    }
}

impl Async for u32 {
    type Value = u32;

    type Error = ();

    open spec fn resolved(&self) -> bool {
        true
    }

    open spec fn outcome(&self) -> AsyncResult<u32, ()> {
        Ok(*self)
    }

    fn is_ready(&self) -> (r: bool) {
        true
    }

    fn is_err(&self) -> (r: bool) {
        false
    }

    fn poll(self) -> (r: Result<AsyncResult<u32, ()>, u32>) {
        Ok(Ok(self))
    }
}

impl Async for u64 {
    type Value = u64;

    type Error = ();

    open spec fn resolved(&self) -> bool {
        true
    }

    open spec fn outcome(&self) -> AsyncResult<u64, ()> {
        Ok(*self)
    }

    fn is_ready(&self) -> (r: bool) {
        true
    }

    fn is_err(&self) -> (r: bool) {
        false
    }

    fn poll(self) -> (r: Result<AsyncResult<u64, ()>, u64>) {
        Ok(Ok(self))
    }
}

impl Async for usize {
    type Value = usize;

    type Error = ();

    open spec fn resolved(&self) -> bool {
        true
    }

    open spec fn outcome(&self) -> AsyncResult<usize, ()> {
        Ok(*self)
    }

    fn is_ready(&self) -> (r: bool) {
        true
    }

    fn is_err(&self) -> (r: bool) {
        false
    }

    fn poll(self) -> (r: Result<AsyncResult<usize, ()>, usize>) {
        Ok(Ok(self))
    }
}

impl Async for i8 {
    type Value = i8;

    type Error = ();

    open spec fn resolved(&self) -> bool {
        true
    }

    open spec fn outcome(&self) -> AsyncResult<i8, ()> {
        Ok(*self)
    }

    fn is_ready(&self) -> (r: bool) {
        true
    }

    fn is_err(&self) -> (r: bool) {
        false
    }

    fn poll(self) -> (r: Result<AsyncResult<i8, ()>, i8>) {
        Ok(Ok(self))
    }
}

impl Async for i16 {
    type Value = i16;

    type Error = ();

    open spec fn resolved(&self) -> bool {
        true
    }

    open spec fn outcome(&self) -> AsyncResult<i16, ()> {
        Ok(*self)
    }

    fn is_ready(&self) -> (r: bool) {
        true
    }

    fn is_err(&self) -> (r: bool) {
        false
    }

    fn poll(self) -> (r: Result<AsyncResult<i16, ()>, i16>) {
        Ok(Ok(self))
    }
}

impl Async for i32 {
    type Value = i32;

    type Error = ();

    open spec fn resolved(&self) -> bool {
        true
    }

    open spec fn outcome(&self) -> AsyncResult<i32, ()> {
        Ok(*self)
    }

    fn is_ready(&self) -> (r: bool) {
        true
    }

    fn is_err(&self) -> (r: bool) {
        false
    }

    fn poll(self) -> (r: Result<AsyncResult<i32, ()>, i32>) {
        Ok(Ok(self))
    }
}

impl Async for i64 {
    type Value = i64;

    type Error = ();

    open spec fn resolved(&self) -> bool {
        true
    }

    open spec fn outcome(&self) -> AsyncResult<i64, ()> {
        Ok(*self)
    }

    fn is_ready(&self) -> (r: bool) {
        true
    }

    fn is_err(&self) -> (r: bool) {
        false
    }

    fn poll(self) -> (r: Result<AsyncResult<i64, ()>, i64>) {
        Ok(Ok(self))
    }
}

impl Async for isize {
    type Value = isize;

    type Error = ();

    open spec fn resolved(&self) -> bool {
        true
    }

    open spec fn outcome(&self) -> AsyncResult<isize, ()> {
        Ok(*self)
    }

    fn is_ready(&self) -> (r: bool) {
        true
    }

    fn is_err(&self) -> (r: bool) {
        false
    }

    fn poll(self) -> (r: Result<AsyncResult<isize, ()>, isize>) {
        Ok(Ok(self))
    }
}

impl<X> Async for Vec<X> {
    type Value = Vec<X>;

    type Error = ();

    open spec fn resolved(&self) -> bool {
        true
    }

    open spec fn outcome(&self) -> AsyncResult<Vec<X>, ()> {
        Ok(*self)
    }

    fn is_ready(&self) -> (r: bool) {
        true
    }

    fn is_err(&self) -> (r: bool) {
        false
    }

    fn poll(self) -> (r: Result<AsyncResult<Vec<X>, ()>, Vec<X>>) {
        Ok(Ok(self))
    }
}

} // verus!
