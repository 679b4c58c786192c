//! Computations that are built from others, which may not be complete.
//!
//! A composition asks for nothing until there is interest in it. Then it asks for the
//! outcome of its first part, and goes by that: it asks for the outcome of a second
//! part, or is settled at once. Each `turn` takes what has happened and says what is
//! to be asked next.
use super::error::{AsyncError, AsyncResult};
use super::value::Async;
use vstd::prelude::*;

verus! {

/// How far a composition has come: `A` is its first part, and `X` what decides on the
/// second one.
#[derive(Debug)]
pub enum Stage<A, X> {
    /// There is no interest in it yet.
    Idle(A, X),
    /// It waits for the outcome of the first part.
    First(X),
    /// It waits for the outcome of the second part.
    Second,
    /// It is settled, or was given up.
    Over,
}

/// What has happened to a composition: `T` and `E` are of the first part, `V` and `W`
/// of the second one.
#[derive(Debug)]
pub enum Event<T, E, V, W> {
    /// There is interest in it.
    Interest,
    /// It was given up before there was interest.
    Gone,
    /// The outcome of the first part has come.
    First(AsyncResult<T, E>),
    /// The outcome of the second part has come.
    Second(AsyncResult<V, W>),
}

/// What a composition asks for.
#[derive(Debug)]
pub enum Ask<A, X, U, V, W> {
    /// That both are given up: neither was asked for anything.
    Discard(A, X),
    /// The outcome of the first part.
    First(A),
    /// The outcome of the second part.
    Second(U),
    /// That it is completed with this outcome, and that what would have decided on the
    /// second part is given up where it was not used.
    Settle(AsyncResult<V, W>, Option<X>),
}

/// Whether `event` can happen at the stage `stage`.
pub open spec fn fits<A, X, T, E, V, W>(stage: Stage<A, X>, event: Event<T, E, V, W>) -> bool {
    match stage {
        Stage::Idle(_, _) => event is Interest || event is Gone,
        Stage::First(_) => event is First,
        Stage::Second => event is Second,
        Stage::Over => false,
    }
}

/// What the turns of all compositions have in common: nothing is asked before there is
/// interest, then the first part is asked, and the outcome of the second part is that
/// of the whole.
pub open spec fn turned<A, X, T, E, V, W, U>(
    before: Stage<A, X>,
    event: Event<T, E, V, W>,
    after: Stage<A, X>,
    ask: Ask<A, X, U, V, W>,
) -> bool {
    match before {
        Stage::Idle(a, x) => match event {
            Event::Interest => after == Stage::<A, X>::First(x) && ask == Ask::<A, X, U, V, W>::First(a),
            Event::Gone => after is Over && ask == Ask::<A, X, U, V, W>::Discard(a, x),
            _ => false,
        },
        Stage::Second => match event {
            Event::Second(res) => after is Over && ask == Ask::<A, X, U, V, W>::Settle(res, None),
            _ => false,
        },
        _ => false,
    }
}

/// One turn of `AndThen`.
pub open spec fn and_then_turned<A, F, T, E, V, U>(
    before: Stage<A, F>,
    event: Event<T, E, V, E>,
    after: Stage<A, F>,
    ask: Ask<A, F, U, V, E>,
) -> bool where F: FnOnce(T) -> U {
    match before {
        Stage::First(f) => match event {
            Event::First(Ok(v)) => after is Second && ask is Second && call_ensures(
                f,
                (v,),
                ask->Second_0,
            ),
            Event::First(Err(e)) => after is Over && ask == Ask::<A, F, U, V, E>::Settle(
                Err(e),
                Some(f),
            ),
            _ => false,
        },
        _ => turned(before, event, after, ask),
    }
}

/// One turn of `OrElse`.
pub open spec fn or_else_turned<A, F, T, E, U>(
    before: Stage<A, F>,
    event: Event<T, E, T, E>,
    after: Stage<A, F>,
    ask: Ask<A, F, U, T, E>,
) -> bool where F: FnOnce(AsyncError<E>) -> U {
    match before {
        Stage::First(f) => match event {
            Event::First(Ok(v)) => after is Over && ask == Ask::<A, F, U, T, E>::Settle(
                Ok(v),
                Some(f),
            ),
            Event::First(Err(e)) => after is Second && ask is Second && call_ensures(
                f,
                (e,),
                ask->Second_0,
            ),
            _ => false,
        },
        _ => turned(before, event, after, ask),
    }
}

/// One turn of `Handle`.
pub open spec fn handle_turned<A, F, T, E, V, W, U>(
    before: Stage<A, F>,
    event: Event<T, E, V, W>,
    after: Stage<A, F>,
    ask: Ask<A, F, U, V, W>,
) -> bool where F: FnOnce(AsyncResult<T, E>) -> U {
    match before {
        Stage::First(f) => match event {
            Event::First(res) => after is Second && ask is Second && call_ensures(
                f,
                (res,),
                ask->Second_0,
            ),
            _ => false,
        },
        _ => turned(before, event, after, ask),
    }
}

/// One turn of `And`.
pub open spec fn and_turned<A, B, T, E, V>(
    before: Stage<A, B>,
    event: Event<T, E, V, E>,
    after: Stage<A, B>,
    ask: Ask<A, B, B, V, E>,
) -> bool {
    match before {
        Stage::First(b) => match event {
            Event::First(Ok(_)) => after is Second && ask == Ask::<A, B, B, V, E>::Second(b),
            Event::First(Err(e)) => after is Over && ask == Ask::<A, B, B, V, E>::Settle(
                Err(e),
                Some(b),
            ),
            _ => false,
        },
        _ => turned(before, event, after, ask),
    }
}

/// One turn of `Or`.
pub open spec fn or_turned<A, B, T, E>(
    before: Stage<A, B>,
    event: Event<T, E, T, E>,
    after: Stage<A, B>,
    ask: Ask<A, B, B, T, E>,
) -> bool {
    match before {
        Stage::First(b) => match event {
            Event::First(Ok(v)) => after is Over && ask == Ask::<A, B, B, T, E>::Settle(
                Ok(v),
                Some(b),
            ),
            Event::First(Err(_)) => after is Second && ask == Ask::<A, B, B, T, E>::Second(b),
            _ => false,
        },
        _ => turned(before, event, after, ask),
    }
}

/// The composition of `and_then`: an error of the first part is that of the whole, and
/// its value is handed to the function that gives the second part.
#[derive(Debug)]
pub struct AndThen<A, F> {
    stage: Stage<A, F>,
}

impl<A, F> AndThen<A, F> {
    /// How far the composition has come.
    pub closed spec fn view(&self) -> Stage<A, F> {
        self.stage
    }

    /// Takes what has happened, and says what is to be asked next.
    pub fn turn<T, E, V, U>(&mut self, event: Event<T, E, V, E>) -> (r: Ask<A, F, U, V, E>) where F: FnOnce(T) -> U
        requires
            fits(old(self)@, event),
            old(self)@ matches Stage::First(f) ==> (event matches Event::First(Ok(v)) ==> call_requires(f, (v,))),
        ensures
            and_then_turned(old(self)@, event, final(self)@, r),
    {
        let mut stage: Stage<A, F> = Stage::Over;
        core::mem::swap(&mut self.stage, &mut stage);
        match stage {
            Stage::Idle(a, f) => match event {
                Event::Interest => {
                    self.stage = Stage::First(f);
                    Ask::First(a)
                },
                _ => Ask::Discard(a, f),
            },
            Stage::First(f) => {
                match event {
                    Event::First(Ok(v)) => {
                        self.stage = Stage::Second;
                        Ask::Second(f(v))
                    },
                    Event::First(Err(e)) => Ask::Settle(Err(e), Some(f)),
                    _ => vstd::pervasive::unreached(),
                }
            },
            _ => match event {
                Event::Second(res) => Ask::Settle(res, None),
                _ => vstd::pervasive::unreached(),
            },
        }
    }

    /// The outcome of a composition whose parts are complete.
    pub fn expect<U: Async<Error = A::Error>>(self) -> (r: AsyncResult<U::Value, A::Error>) where
        A: Async,
        F: FnOnce(A::Value) -> U,

        requires
            self@ is Idle,
            self@->Idle_0.resolved(),
            self@->Idle_0.outcome() matches Ok(v) ==> call_requires(self@->Idle_1, (v,)) && forall|
                u: U,
            | #[trigger] call_ensures(self@->Idle_1, (v,), u) ==> u.resolved(),
        ensures
            self@->Idle_0.outcome() matches Ok(v) ==> exists|u: U| #[trigger]
                call_ensures(self@->Idle_1, (v,), u) && r == u.outcome(),
            self@->Idle_0.outcome() matches Err(e) ==> r == Err::<U::Value, AsyncError<A::Error>>(
                e,
            ),
    {
        let mut this = self;
        match this.turn::<A::Value, A::Error, U::Value, U>(Event::Interest) {
            Ask::First(a) => match this.turn::<A::Value, A::Error, U::Value, U>(
                Event::First(a.expect()),
            ) {
                Ask::Second(u) => match this.turn::<A::Value, A::Error, U::Value, U>(
                    Event::Second(u.expect()),
                ) {
                    Ask::Settle(res, _) => res,
                    _ => vstd::pervasive::unreached(),
                },
                Ask::Settle(res, _) => res,
                _ => vstd::pervasive::unreached(),
            },
            _ => vstd::pervasive::unreached(),
        }
    }
}

/// The composition of `or_else`: a value of the first part is that of the whole, and its
/// error is handed to the function that gives the second part.
#[derive(Debug)]
pub struct OrElse<A, F> {
    stage: Stage<A, F>,
}

impl<A, F> OrElse<A, F> {
    /// How far the composition has come.
    pub closed spec fn view(&self) -> Stage<A, F> {
        self.stage
    }

    /// Takes what has happened, and says what is to be asked next.
    pub fn turn<T, E, U>(&mut self, event: Event<T, E, T, E>) -> (r: Ask<A, F, U, T, E>) where F: FnOnce(AsyncError<E>) -> U
        requires
            fits(old(self)@, event),
            old(self)@ matches Stage::First(f) ==> (event matches Event::First(Err(e)) ==> call_requires(f, (e,))),
        ensures
            or_else_turned(old(self)@, event, final(self)@, r),
    {
        let mut stage: Stage<A, F> = Stage::Over;
        core::mem::swap(&mut self.stage, &mut stage);
        match stage {
            Stage::Idle(a, f) => match event {
                Event::Interest => {
                    self.stage = Stage::First(f);
                    Ask::First(a)
                },
                _ => Ask::Discard(a, f),
            },
            Stage::First(f) => {
                match event {
                    Event::First(Ok(v)) => Ask::Settle(Ok(v), Some(f)),
                    Event::First(Err(e)) => {
                        self.stage = Stage::Second;
                        Ask::Second(f(e))
                    },
                    _ => vstd::pervasive::unreached(),
                }
            },
            _ => match event {
                Event::Second(res) => Ask::Settle(res, None),
                _ => vstd::pervasive::unreached(),
            },
        }
    }

    /// The outcome of a composition whose parts are complete.
    pub fn expect<U: Async<Value = A::Value, Error = A::Error>>(self) -> (r: AsyncResult<
        A::Value,
        A::Error,
    >) where
        A: Async,
        F: FnOnce(AsyncError<A::Error>) -> U,

        requires
            self@ is Idle,
            self@->Idle_0.resolved(),
            self@->Idle_0.outcome() matches Err(e) ==> call_requires(self@->Idle_1, (e,)) && forall|
                u: U,
            | #[trigger] call_ensures(self@->Idle_1, (e,), u) ==> u.resolved(),
        ensures
            self@->Idle_0.outcome() matches Err(e) ==> exists|u: U| #[trigger]
                call_ensures(self@->Idle_1, (e,), u) && r == u.outcome(),
            self@->Idle_0.outcome() is Ok ==> r == self@->Idle_0.outcome(),
    {
        let mut this = self;
        match this.turn::<A::Value, A::Error, U>(Event::Interest) {
            Ask::First(a) => match this.turn::<A::Value, A::Error, U>(
                Event::First(a.expect()),
            ) {
                Ask::Second(u) => match this.turn::<A::Value, A::Error, U>(
                    Event::Second(u.expect()),
                ) {
                    Ask::Settle(res, _) => res,
                    _ => vstd::pervasive::unreached(),
                },
                Ask::Settle(res, _) => res,
                _ => vstd::pervasive::unreached(),
            },
            _ => vstd::pervasive::unreached(),
        }
    }
}

/// The composition of `handle`: the outcome of the first part is handed to the function
/// that gives the second part.
#[derive(Debug)]
pub struct Handle<A, F> {
    stage: Stage<A, F>,
}

impl<A, F> Handle<A, F> {
    /// How far the composition has come.
    pub closed spec fn view(&self) -> Stage<A, F> {
        self.stage
    }

    /// Takes what has happened, and says what is to be asked next.
    pub fn turn<T, E, V, W, U>(&mut self, event: Event<T, E, V, W>) -> (r: Ask<A, F, U, V, W>) where F: FnOnce(AsyncResult<T, E>) -> U
        requires
            fits(old(self)@, event),
            old(self)@ matches Stage::First(f) ==> (event matches Event::First(res) ==> call_requires(f, (res,))),
        ensures
            handle_turned(old(self)@, event, final(self)@, r),
    {
        let mut stage: Stage<A, F> = Stage::Over;
        core::mem::swap(&mut self.stage, &mut stage);
        match stage {
            Stage::Idle(a, f) => match event {
                Event::Interest => {
                    self.stage = Stage::First(f);
                    Ask::First(a)
                },
                _ => Ask::Discard(a, f),
            },
            Stage::First(f) => {
                match event {
                    Event::First(res) => {
                        self.stage = Stage::Second;
                        Ask::Second(f(res))
                    },
                    _ => vstd::pervasive::unreached(),
                }
            },
            _ => match event {
                Event::Second(res) => Ask::Settle(res, None),
                _ => vstd::pervasive::unreached(),
            },
        }
    }

    /// The outcome of a composition whose parts are complete.
    pub fn expect<U: Async>(self) -> (r: AsyncResult<U::Value, U::Error>) where
        A: Async,
        F: FnOnce(AsyncResult<A::Value, A::Error>) -> U,

        requires
            self@ is Idle,
            self@->Idle_0.resolved(),
            call_requires(self@->Idle_1, (self@->Idle_0.outcome(),)),
            forall|u: U| #[trigger]
                call_ensures(self@->Idle_1, (self@->Idle_0.outcome(),), u) ==> u.resolved(),
        ensures
            exists|u: U| #[trigger]
                call_ensures(self@->Idle_1, (self@->Idle_0.outcome(),), u) && r == u.outcome(),
    {
        let mut this = self;
        match this.turn::<A::Value, A::Error, U::Value, U::Error, U>(Event::Interest) {
            Ask::First(a) => match this.turn::<A::Value, A::Error, U::Value, U::Error, U>(
                Event::First(a.expect()),
            ) {
                Ask::Second(u) => match this.turn::<A::Value, A::Error, U::Value, U::Error, U>(
                    Event::Second(u.expect()),
                ) {
                    Ask::Settle(res, _) => res,
                    _ => vstd::pervasive::unreached(),
                },
                _ => vstd::pervasive::unreached(),
            },
            _ => vstd::pervasive::unreached(),
        }
    }
}

/// The composition of `and`: an error of the first part is that of the whole, and then
/// the second part is given up.
#[derive(Debug)]
pub struct And<A, B> {
    stage: Stage<A, B>,
}

impl<A, B> And<A, B> {
    /// How far the composition has come.
    pub closed spec fn view(&self) -> Stage<A, B> {
        self.stage
    }

    /// Takes what has happened, and says what is to be asked next.
    pub fn turn<T, E, V>(&mut self, event: Event<T, E, V, E>) -> (r: Ask<A, B, B, V, E>)
        requires
            fits(old(self)@, event),
        ensures
            and_turned(old(self)@, event, final(self)@, r),
    {
        let mut stage: Stage<A, B> = Stage::Over;
        core::mem::swap(&mut self.stage, &mut stage);
        match stage {
            Stage::Idle(a, b) => match event {
                Event::Interest => {
                    self.stage = Stage::First(b);
                    Ask::First(a)
                },
                _ => Ask::Discard(a, b),
            },
            Stage::First(b) => {
                match event {
                    Event::First(Ok(_)) => {
                        self.stage = Stage::Second;
                        Ask::Second(b)
                    },
                    Event::First(Err(e)) => Ask::Settle(Err(e), Some(b)),
                    _ => vstd::pervasive::unreached(),
                }
            },
            _ => match event {
                Event::Second(res) => Ask::Settle(res, None),
                _ => vstd::pervasive::unreached(),
            },
        }
    }

    /// The outcome of a composition whose parts are complete.
    pub fn expect(self) -> (r: AsyncResult<B::Value, A::Error>) where A: Async, B: Async<Error = A::Error>
        requires
            self@ is Idle,
            self@->Idle_0.resolved(),
            self@->Idle_1.resolved(),
        ensures
            self@->Idle_0.outcome() is Ok ==> r == self@->Idle_1.outcome(),
            self@->Idle_0.outcome() matches Err(e) ==> r == Err::<B::Value, AsyncError<A::Error>>(
                e,
            ),
    {
        let mut this = self;
        match this.turn::<A::Value, A::Error, B::Value>(Event::Interest) {
            Ask::First(a) => match this.turn::<A::Value, A::Error, B::Value>(Event::First(a.expect())) {
                Ask::Second(b) => match this.turn::<A::Value, A::Error, B::Value>(Event::Second(b.expect())) {
                    Ask::Settle(res, _) => res,
                    _ => vstd::pervasive::unreached(),
                },
                Ask::Settle(res, _) => res,
                _ => vstd::pervasive::unreached(),
            },
            _ => vstd::pervasive::unreached(),
        }
    }
}

/// The composition of `or`: a value of the first part is that of the whole, and then the
/// second part is given up.
#[derive(Debug)]
pub struct Or<A, B> {
    stage: Stage<A, B>,
}

impl<A, B> Or<A, B> {
    /// How far the composition has come.
    pub closed spec fn view(&self) -> Stage<A, B> {
        self.stage
    }

    /// Takes what has happened, and says what is to be asked next.
    pub fn turn<T, E>(&mut self, event: Event<T, E, T, E>) -> (r: Ask<A, B, B, T, E>)
        requires
            fits(old(self)@, event),
        ensures
            or_turned(old(self)@, event, final(self)@, r),
    {
        let mut stage: Stage<A, B> = Stage::Over;
        core::mem::swap(&mut self.stage, &mut stage);
        match stage {
            Stage::Idle(a, b) => match event {
                Event::Interest => {
                    self.stage = Stage::First(b);
                    Ask::First(a)
                },
                _ => Ask::Discard(a, b),
            },
            Stage::First(b) => {
                match event {
                    Event::First(Ok(v)) => Ask::Settle(Ok(v), Some(b)),
                    Event::First(Err(_)) => {
                        self.stage = Stage::Second;
                        Ask::Second(b)
                    },
                    _ => vstd::pervasive::unreached(),
                }
            },
            _ => match event {
                Event::Second(res) => Ask::Settle(res, None),
                _ => vstd::pervasive::unreached(),
            },
        }
    }

    /// The outcome of a composition whose parts are complete.
    pub fn expect(self) -> (r: AsyncResult<A::Value, A::Error>) where A: Async, B: Async<Value = A::Value, Error = A::Error>
        requires
            self@ is Idle,
            self@->Idle_0.resolved(),
            self@->Idle_1.resolved(),
        ensures
            self@->Idle_0.outcome() is Ok ==> r == self@->Idle_0.outcome(),
            self@->Idle_0.outcome() is Err ==> r == self@->Idle_1.outcome(),
    {
        let mut this = self;
        match this.turn::<A::Value, A::Error>(Event::Interest) {
            Ask::First(a) => match this.turn::<A::Value, A::Error>(Event::First(a.expect())) {
                Ask::Second(b) => match this.turn::<A::Value, A::Error>(Event::Second(b.expect())) {
                    Ask::Settle(res, _) => res,
                    _ => vstd::pervasive::unreached(),
                },
                Ask::Settle(res, _) => res,
                _ => vstd::pervasive::unreached(),
            },
            _ => vstd::pervasive::unreached(),
        }
    }
}

/// Computations that are built from others. Building one asks for nothing.
pub trait Compose: Sized {
    /// Completes with the completion value of what the callback returns for the result of
    /// this computation.
    fn handle<F>(self, cb: F) -> (r: Handle<Self, F>)
        ensures
            r@ == Stage::<Self, F>::Idle(self, cb),
    {
        Handle { stage: Stage::Idle(self, cb) }
    }

    /// If this computation completes with an error, completes with that error. If it
    /// completes successfully, completes with the completion value of `next`.
    fn and<B>(self, next: B) -> (r: And<Self, B>)
        ensures
            r@ == Stage::<Self, B>::Idle(self, next),
    {
        And { stage: Stage::Idle(self, next) }
    }

    /// If this computation completes with an error, completes with that error. If it
    /// completes successfully, the callback is called with the value, and the completion
    /// value is that of what the callback returns.
    fn and_then<F>(self, f: F) -> (r: AndThen<Self, F>)
        ensures
            r@ == Stage::<Self, F>::Idle(self, f),
    {
        AndThen { stage: Stage::Idle(self, f) }
    }

    /// If this computation completes successfully, completes with that value. If it
    /// completes with an error, completes with the completion value of `alt`, be it a
    /// success or an error.
    fn or<B>(self, alt: B) -> (r: Or<Self, B>)
        ensures
            r@ == Stage::<Self, B>::Idle(self, alt),
    {
        Or { stage: Stage::Idle(self, alt) }
    }

    /// If this computation completes successfully, completes with that value. If it
    /// completes with an error, the callback is called with the error, and the completion
    /// value is that of what the callback returns, be it a success or an error.
    fn or_else<F>(self, f: F) -> (r: OrElse<Self, F>)
        ensures
            r@ == Stage::<Self, F>::Idle(self, f),
    {
        OrElse { stage: Stage::Idle(self, f) }
    }
}

impl<A> Compose for A {

}

} // verus!
