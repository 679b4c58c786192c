//! What plain values come to as asynchronous ones, and what the turns of compositions and the
//! compositions of complete values come to.
use super::compose::{And, AndThen, Ask, Event, Handle, Or, OrElse, Stage};
use super::error::{AsyncError, AsyncResult};
use super::value::{Async, Cancel};
use vstd::prelude::*;

verus! {

/// A result is complete, and is its own outcome: it is an error exactly if it is one, and whoever asks
/// for it gets it.
pub proof fn law_result_is_its_own_outcome<T, E>(
    res: AsyncResult<T, E>,
    ready: bool,
    failed: bool,
    polled: Result<AsyncResult<T, E>, AsyncResult<T, E>>,
    got: AsyncResult<T, E>,
    waited: Result<AsyncResult<T, E>, AsyncResult<T, E>>,
)
    requires
        call_ensures(<AsyncResult<T, E> as Async>::is_ready, (&res,), ready),
        call_ensures(<AsyncResult<T, E> as Async>::is_err, (&res,), failed),
        call_ensures(<AsyncResult<T, E> as Async>::poll, (res,), polled),
        call_ensures(<AsyncResult<T, E> as Async>::expect, (res,), got),
        call_ensures(<AsyncResult<T, E> as Async>::wait, (res,), waited),
    ensures
        ready,
        failed <==> res is Err,
        polled == Ok::<AsyncResult<T, E>, AsyncResult<T, E>>(res),
        got == res,
        waited == Ok::<AsyncResult<T, E>, AsyncResult<T, E>>(res),
{
}

/// An asynchronous value of any kind gives its outcome once it is complete, and comes back as long as
/// it is not.
pub proof fn law_value_gives_its_outcome_once_complete<A: Async>(
    a: A,
    ready: bool,
    failed: bool,
    polled: Result<AsyncResult<A::Value, A::Error>, A>,
    waited: Result<AsyncResult<A::Value, A::Error>, A>,
)
    requires
        call_ensures(A::is_ready, (&a,), ready),
        call_ensures(A::is_err, (&a,), failed),
        call_ensures(A::poll, (a,), polled),
        call_ensures(A::wait, (a,), waited),
    ensures
        ready <==> polled is Ok,
        ready <==> waited is Ok,
        polled matches Ok(res) ==> res == a.outcome() && (failed <==> res is Err),
        polled matches Ok(res) ==> waited == Ok::<AsyncResult<A::Value, A::Error>, A>(res),
        polled is Err ==> !failed,
        polled matches Err(back) ==> back == a,
        waited matches Err(back) ==> back == a,
{
}

/// What was registered comes back from where it is kept.
pub proof fn law_kept_value_is_regained<A>(kept: Option<A>, r: Option<A>)
    requires
        call_ensures(<Option<A> as Cancel<A>>::cancel, (kept,), r),
    ensures
        r == kept,
{
}

/// A plain value is complete, has not failed, and its outcome is itself.
pub proof fn law_simple_values_are_their_own_outcome(
    x0: (),
    ready0: bool,
    failed0: bool,
    polled0: Result<AsyncResult<(), ()>, ()>,
    x1: bool,
    ready1: bool,
    failed1: bool,
    polled1: Result<AsyncResult<bool, ()>, bool>,
    x2: String,
    ready2: bool,
    failed2: bool,
    polled2: Result<AsyncResult<String, ()>, String>,
    x3: u8,
    ready3: bool,
    failed3: bool,
    polled3: Result<AsyncResult<u8, ()>, u8>,
)
    requires
        call_ensures(<() as Async>::is_ready, (&x0,), ready0),
        call_ensures(<() as Async>::is_err, (&x0,), failed0),
        call_ensures(<() as Async>::poll, (x0,), polled0),
        call_ensures(<bool as Async>::is_ready, (&x1,), ready1),
        call_ensures(<bool as Async>::is_err, (&x1,), failed1),
        call_ensures(<bool as Async>::poll, (x1,), polled1),
        call_ensures(<String as Async>::is_ready, (&x2,), ready2),
        call_ensures(<String as Async>::is_err, (&x2,), failed2),
        call_ensures(<String as Async>::poll, (x2,), polled2),
        call_ensures(<u8 as Async>::is_ready, (&x3,), ready3),
        call_ensures(<u8 as Async>::is_err, (&x3,), failed3),
        call_ensures(<u8 as Async>::poll, (x3,), polled3),
    ensures
        ready0 && !failed0 && polled0 == Ok::<AsyncResult<(), ()>, ()>(Ok(x0)),
        ready1 && !failed1 && polled1 == Ok::<AsyncResult<bool, ()>, bool>(Ok(x1)),
        ready2 && !failed2 && polled2 == Ok::<AsyncResult<String, ()>, String>(Ok(x2)),
        ready3 && !failed3 && polled3 == Ok::<AsyncResult<u8, ()>, u8>(Ok(x3)),
{
}

/// A plain value is complete, has not failed, and its outcome is itself.
pub proof fn law_unsigned_values_are_their_own_outcome(
    x0: u16,
    ready0: bool,
    failed0: bool,
    polled0: Result<AsyncResult<u16, ()>, u16>,
    x1: u32,
    ready1: bool,
    failed1: bool,
    polled1: Result<AsyncResult<u32, ()>, u32>,
    x2: u64,
    ready2: bool,
    failed2: bool,
    polled2: Result<AsyncResult<u64, ()>, u64>,
    x3: usize,
    ready3: bool,
    failed3: bool,
    polled3: Result<AsyncResult<usize, ()>, usize>,
)
    requires
        call_ensures(<u16 as Async>::is_ready, (&x0,), ready0),
        call_ensures(<u16 as Async>::is_err, (&x0,), failed0),
        call_ensures(<u16 as Async>::poll, (x0,), polled0),
        call_ensures(<u32 as Async>::is_ready, (&x1,), ready1),
        call_ensures(<u32 as Async>::is_err, (&x1,), failed1),
        call_ensures(<u32 as Async>::poll, (x1,), polled1),
        call_ensures(<u64 as Async>::is_ready, (&x2,), ready2),
        call_ensures(<u64 as Async>::is_err, (&x2,), failed2),
        call_ensures(<u64 as Async>::poll, (x2,), polled2),
        call_ensures(<usize as Async>::is_ready, (&x3,), ready3),
        call_ensures(<usize as Async>::is_err, (&x3,), failed3),
        call_ensures(<usize as Async>::poll, (x3,), polled3),
    ensures
        ready0 && !failed0 && polled0 == Ok::<AsyncResult<u16, ()>, u16>(Ok(x0)),
        ready1 && !failed1 && polled1 == Ok::<AsyncResult<u32, ()>, u32>(Ok(x1)),
        ready2 && !failed2 && polled2 == Ok::<AsyncResult<u64, ()>, u64>(Ok(x2)),
        ready3 && !failed3 && polled3 == Ok::<AsyncResult<usize, ()>, usize>(Ok(x3)),
{
}

/// A plain value is complete, has not failed, and its outcome is itself.
pub proof fn law_signed_values_are_their_own_outcome(
    x0: i8,
    ready0: bool,
    failed0: bool,
    polled0: Result<AsyncResult<i8, ()>, i8>,
    x1: i16,
    ready1: bool,
    failed1: bool,
    polled1: Result<AsyncResult<i16, ()>, i16>,
    x2: i32,
    ready2: bool,
    failed2: bool,
    polled2: Result<AsyncResult<i32, ()>, i32>,
    x3: i64,
    ready3: bool,
    failed3: bool,
    polled3: Result<AsyncResult<i64, ()>, i64>,
    x4: isize,
    ready4: bool,
    failed4: bool,
    polled4: Result<AsyncResult<isize, ()>, isize>,
)
    requires
        call_ensures(<i8 as Async>::is_ready, (&x0,), ready0),
        call_ensures(<i8 as Async>::is_err, (&x0,), failed0),
        call_ensures(<i8 as Async>::poll, (x0,), polled0),
        call_ensures(<i16 as Async>::is_ready, (&x1,), ready1),
        call_ensures(<i16 as Async>::is_err, (&x1,), failed1),
        call_ensures(<i16 as Async>::poll, (x1,), polled1),
        call_ensures(<i32 as Async>::is_ready, (&x2,), ready2),
        call_ensures(<i32 as Async>::is_err, (&x2,), failed2),
        call_ensures(<i32 as Async>::poll, (x2,), polled2),
        call_ensures(<i64 as Async>::is_ready, (&x3,), ready3),
        call_ensures(<i64 as Async>::is_err, (&x3,), failed3),
        call_ensures(<i64 as Async>::poll, (x3,), polled3),
        call_ensures(<isize as Async>::is_ready, (&x4,), ready4),
        call_ensures(<isize as Async>::is_err, (&x4,), failed4),
        call_ensures(<isize as Async>::poll, (x4,), polled4),
    ensures
        ready0 && !failed0 && polled0 == Ok::<AsyncResult<i8, ()>, i8>(Ok(x0)),
        ready1 && !failed1 && polled1 == Ok::<AsyncResult<i16, ()>, i16>(Ok(x1)),
        ready2 && !failed2 && polled2 == Ok::<AsyncResult<i32, ()>, i32>(Ok(x2)),
        ready3 && !failed3 && polled3 == Ok::<AsyncResult<i64, ()>, i64>(Ok(x3)),
        ready4 && !failed4 && polled4 == Ok::<AsyncResult<isize, ()>, isize>(Ok(x4)),
{
}

/// A plain value is complete, has not failed, and its outcome is itself.
pub proof fn law_vector_values_are_their_own_outcome<X>(
    x0: Vec<X>,
    ready0: bool,
    failed0: bool,
    polled0: Result<AsyncResult<Vec<X>, ()>, Vec<X>>,
)
    requires
        call_ensures(<Vec<X> as Async>::is_ready, (&x0,), ready0),
        call_ensures(<Vec<X> as Async>::is_err, (&x0,), failed0),
        call_ensures(<Vec<X> as Async>::poll, (x0,), polled0),
    ensures
        ready0 && !failed0 && polled0 == Ok::<AsyncResult<Vec<X>, ()>, Vec<X>>(Ok(x0)),
{
}

/// What a turn comes to before the first part is asked, and once the second part has answered. With
/// the first interest the first part is asked; without it both parts come back unused. The outcome of
/// the second part is that of the whole, and after it the composition is over.
pub open spec fn first_and_last_turn<A, X, T, E, V, W, U>(
    before: Stage<A, X>,
    event: Event<T, E, V, W>,
    after: Stage<A, X>,
    ask: Ask<A, X, U, V, W>,
) -> bool {
    &&& before matches Stage::Idle(a, x) ==> {
        &&& event is Interest ==> after == Stage::<A, X>::First(x) && ask == Ask::<
            A,
            X,
            U,
            V,
            W,
        >::First(a)
        &&& event is Gone ==> after is Over && ask == Ask::<A, X, U, V, W>::Discard(a, x)
    }
    &&& before is Second ==> (event matches Event::Second(res) ==> after is Over && ask == Ask::<
        A,
        X,
        U,
        V,
        W,
    >::Settle(res, None))
}

/// A value of the first part goes to the function, whose part is asked; an error is that of the whole,
/// and the function comes back unused.
pub proof fn law_turns_of_and_then<A, F: FnOnce(T) -> U, T, E, V, U>(
    composition: &mut AndThen<A, F>,
    event: Event<T, E, V, E>,
    ask: Ask<A, F, U, V, E>,
)
    requires
        call_ensures(AndThen::<A, F>::turn::<T, E, V, U>, (composition, event), ask),
    ensures
        first_and_last_turn(old(composition)@, event, final(composition)@, ask),
        old(composition)@ matches Stage::First(x) ==> {
            &&& event matches Event::First(Ok(v)) ==> final(composition)@ is Second && ask is Second
                && call_ensures(x, (v,), ask->Second_0)
            &&& event matches Event::First(Err(e)) ==> final(composition)@ is Over && ask == Ask::<
                A,
                F,
                U,
                V,
                E,
            >::Settle(Err(e), Some(x))
        },
{
}

/// A value of the first part is that of the whole, and the function comes back unused; an error goes
/// to the function, whose part is asked.
pub proof fn law_turns_of_or_else<A, F: FnOnce(AsyncError<E>) -> U, T, E, U>(
    composition: &mut OrElse<A, F>,
    event: Event<T, E, T, E>,
    ask: Ask<A, F, U, T, E>,
)
    requires
        call_ensures(OrElse::<A, F>::turn::<T, E, U>, (composition, event), ask),
    ensures
        first_and_last_turn(old(composition)@, event, final(composition)@, ask),
        old(composition)@ matches Stage::First(x) ==> {
            &&& event matches Event::First(Ok(v)) ==> final(composition)@ is Over && ask == Ask::<
                A,
                F,
                U,
                T,
                E,
            >::Settle(Ok(v), Some(x))
            &&& event matches Event::First(Err(e)) ==> final(composition)@ is Second
                && ask is Second && call_ensures(x, (e,), ask->Second_0)
        },
{
}

/// The outcome of the first part, whatever it is, goes to the function, whose part is asked.
pub proof fn law_turns_of_handle<A, F: FnOnce(AsyncResult<T, E>) -> U, T, E, V, W, U>(
    composition: &mut Handle<A, F>,
    event: Event<T, E, V, W>,
    ask: Ask<A, F, U, V, W>,
)
    requires
        call_ensures(Handle::<A, F>::turn::<T, E, V, W, U>, (composition, event), ask),
    ensures
        first_and_last_turn(old(composition)@, event, final(composition)@, ask),
        old(composition)@ matches Stage::First(x) ==> {
            event matches Event::First(res) ==> final(composition)@ is Second && ask is Second
                && call_ensures(x, (res,), ask->Second_0)
        },
{
}

/// A value of the first part has the second one asked; an error is that of the whole, and the second
/// part comes back unused.
pub proof fn law_turns_of_and<A, B, T, E, V>(
    composition: &mut And<A, B>,
    event: Event<T, E, V, E>,
    ask: Ask<A, B, B, V, E>,
)
    requires
        call_ensures(And::<A, B>::turn::<T, E, V>, (composition, event), ask),
    ensures
        first_and_last_turn(old(composition)@, event, final(composition)@, ask),
        old(composition)@ matches Stage::First(x) ==> {
            &&& event matches Event::First(Ok(_)) ==> final(composition)@ is Second && ask == Ask::<
                A,
                B,
                B,
                V,
                E,
            >::Second(x)
            &&& event matches Event::First(Err(e)) ==> final(composition)@ is Over && ask == Ask::<
                A,
                B,
                B,
                V,
                E,
            >::Settle(Err(e), Some(x))
        },
{
}

/// A value of the first part is that of the whole, and the second part comes back unused; an error has
/// the second one asked.
pub proof fn law_turns_of_or<A, B, T, E>(
    composition: &mut Or<A, B>,
    event: Event<T, E, T, E>,
    ask: Ask<A, B, B, T, E>,
)
    requires
        call_ensures(Or::<A, B>::turn::<T, E>, (composition, event), ask),
    ensures
        first_and_last_turn(old(composition)@, event, final(composition)@, ask),
        old(composition)@ matches Stage::First(x) ==> {
            &&& event matches Event::First(Ok(v)) ==> final(composition)@ is Over && ask == Ask::<
                A,
                B,
                B,
                T,
                E,
            >::Settle(Ok(v), Some(x))
            &&& event matches Event::First(Err(_)) ==> final(composition)@ is Second && ask == Ask::<
                A,
                B,
                B,
                T,
                E,
            >::Second(x)
        },
{
}

/// Complete results that are composed: `and` gives the first error, else the second result, and `or`
/// the first value, else the second result.
pub proof fn law_results_are_composed<T, E>(
    a: AsyncResult<T, E>,
    b: AsyncResult<T, E>,
    and: And<AsyncResult<T, E>, AsyncResult<T, E>>,
    both: AsyncResult<T, E>,
    or: Or<AsyncResult<T, E>, AsyncResult<T, E>>,
    either: AsyncResult<T, E>,
)
    requires
        and@ == Stage::Idle(a, b),
        call_ensures(And::<AsyncResult<T, E>, AsyncResult<T, E>>::expect, (and,), both),
        or@ == Stage::Idle(a, b),
        call_ensures(Or::<AsyncResult<T, E>, AsyncResult<T, E>>::expect, (or,), either),
    ensures
        both == (if a is Ok {
            b
        } else {
            a
        }),
        either == (if a is Ok {
            a
        } else {
            b
        }),
{
}

/// Complete results that are composed with a function: `and_then` hands the value to it and gives an
/// error unchanged, `or_else` hands the error to it and gives a value unchanged, and `handle` hands
/// either to it. What it returns is the outcome.
pub proof fn law_results_are_composed_with_functions<
    T,
    E,
    V,
    F: FnOnce(T) -> AsyncResult<V, E>,
    G: FnOnce(AsyncError<E>) -> AsyncResult<T, E>,
    H: FnOnce(AsyncResult<T, E>) -> AsyncResult<V, E>,
>(
    a: AsyncResult<T, E>,
    f: F,
    g: G,
    h: H,
    and_then: AndThen<AsyncResult<T, E>, F>,
    r: AsyncResult<V, E>,
    or_else: OrElse<AsyncResult<T, E>, G>,
    s: AsyncResult<T, E>,
    handle: Handle<AsyncResult<T, E>, H>,
    t: AsyncResult<V, E>,
)
    requires
        and_then@ == Stage::Idle(a, f),
        call_ensures(
            AndThen::<AsyncResult<T, E>, F>::expect::<AsyncResult<V, E>>,
            (and_then,),
            r,
        ),
        or_else@ == Stage::Idle(a, g),
        call_ensures(
            OrElse::<AsyncResult<T, E>, G>::expect::<AsyncResult<T, E>>,
            (or_else,),
            s,
        ),
        handle@ == Stage::Idle(a, h),
        call_ensures(Handle::<AsyncResult<T, E>, H>::expect::<AsyncResult<V, E>>, (handle,), t),
    ensures
        a matches Ok(v) ==> call_ensures(f, (v,), r) && s == Ok::<T, AsyncError<E>>(v),
        a matches Err(e) ==> r == Err::<V, AsyncError<E>>(e) && call_ensures(g, (e,), s),
        call_ensures(h, (a,), t),
{
}

} // verus!
