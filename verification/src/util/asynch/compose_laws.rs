//! What holds of compositions of computations that are pending.
//!
//! A composition stands between three cores: that of its result, whose producer waits
//! with a callback `g` for interest, and those of its two parts. The laws follow it from
//! the interest of a consumer, with the callback `k`, to the call of `k`.
use super::cell::{Action, Core, CoreView, WaitStrategy};
use super::compose::{
    and_then_turned, and_turned, handle_turned, or_else_turned, or_turned, Ask, Event, Stage,
};
use super::error::{AsyncError, AsyncResult};
use super::future::fresh;
use vstd::prelude::*;

verus! {

/// A computation that is pending: no value is there and nobody has asked for one. Its
/// producer may wait for interest with a callback.
pub open spec fn pending<T, E, C, D, K>(c: CoreView<T, E, C, D, K>) -> bool {
    &&& c.wf()
    &&& !c.state.consuming
    &&& !c.state.producing
    &&& c.state.lifecycle is New || (c.state.lifecycle is ProducerWait && c.producer matches Some(
        WaitStrategy::Callback(_),
    ))
}

/// What a pending computation owes its producer when somebody asks for the outcome: the
/// callback with which it waits is called.
pub open spec fn told_of_interest<T, E, C, D, K>(
    c: CoreView<T, E, C, D, K>,
    action: Action<T, E, C, D, K>,
) -> bool {
    match c.producer {
        Some(WaitStrategy::Callback(h)) => action == Action::<T, E, C, D, K>::Produce(
            h,
            Ok(Core::handle(c.id)),
        ),
        _ => action is Idle,
    }
}

/// What a pending computation owes its producer when it is given up: the callback with
/// which it waits is called with the cancellation.
pub open spec fn told_of_cancellation<T, E, C, D, K>(
    c: CoreView<T, E, C, D, K>,
    action: Action<T, E, C, D, K>,
) -> bool {
    match c.producer {
        Some(WaitStrategy::Callback(h)) => action == Action::<T, E, C, D, K>::Produce(
            h,
            Err(AsyncError::CancellationError),
        ),
        _ => action is Idle,
    }
}

/// The core of the result of a composition that nobody has asked for.
pub open spec fn composed<T, E, C, D, K>(id: int, g: D) -> CoreView<T, E, C, D, K> {
    fresh::<T, E, C, D, K>(id, 2).producer_received(g).0
}

/// `k` gets `res` from the core `c`, which it has asked.
pub open spec fn gets<T, E, C, D, K>(
    c: CoreView<T, E, C, D, K>,
    k: C,
    res: AsyncResult<T, E>,
) -> bool {
    c.received(k).0.completed(res).1 == Action::<T, E, C, D, K>::Consume(k, res)
}

/// The outcome of a pending computation reaches whoever asked for it, and its producer
/// is told of the interest, or of the cancellation, when it comes and not before.
pub proof fn law_pending_is_asked_and_answers<T, E, C, D, K>(
    c: CoreView<T, E, C, D, K>,
    k: C,
    res: AsyncResult<T, E>,
)
    requires
        pending(c),
    ensures
        c.may_consume(),
        told_of_interest(c, c.received(k).1),
        c.received(k).0.may_complete(),
        gets(c, k, res),
        c.may_cancel(),
        told_of_cancellation(c, c.canceled().1),
        c.canceled().0.state.lifecycle is Canceled,
{
}

/// A composition asks for nothing before there is interest in it: to build it owes no
/// call. Interest calls its producer callback, giving it up calls that callback with the
/// cancellation, and once there is interest the outcome with which it is settled reaches
/// the consumer, by its callback or with its thread.
pub proof fn law_composition_waits_for_interest<T, E, C, D, K>(
    id: int,
    g: D,
    k: C,
    thread: K,
    res: AsyncResult<T, E>,
)
    ensures
        fresh::<T, E, C, D, K>(id, 2).producer_received(g).1 is Idle,
        pending(composed::<T, E, C, D, K>(id, g)),
        ({
            let c = composed::<T, E, C, D, K>(id, g);
            let waits = c.consumer_waits(WaitStrategy::Parked(thread));
            &&& c.received(k).1 == Action::<T, E, C, D, K>::Produce(g, Ok(Core::handle(id)))
            &&& gets(c, k, res)
            &&& c.canceled().1 == Action::<T, E, C, D, K>::Produce(
                g,
                Err(AsyncError::CancellationError),
            )
            &&& waits.1 == Action::<T, E, C, D, K>::Produce(g, Ok(Core::handle(id)))
            &&& waits.0.completed(res).1 == Action::<T, E, C, D, K>::Unpark(thread)
            &&& waits.0.completed(res).0.val == Some(res)
        }),
{
}

/// `and_then` on pending computations. With interest in the result the first part is
/// asked. Its error is the result, and the function comes back unused. Its value is
/// handed to the function, what that returns is asked, and its outcome is the result.
/// Without interest neither the first part nor the function was used.
pub proof fn law_and_then_on_pending<A, F, T, E, V, U, C, D, C2, D2, C3, D3, K>(
    a: A,
    f: F,
    first: CoreView<T, E, C, D, K>,
    second: CoreView<V, E, C2, D2, K>,
    id: int,
    g: D3,
    k1: C,
    k2: C2,
    k: C3,
    res1: AsyncResult<T, E>,
    res2: AsyncResult<V, E>,
    stages: (Stage<A, F>, Stage<A, F>, Stage<A, F>),
    asks: (Ask<A, F, U, V, E>, Ask<A, F, U, V, E>, Ask<A, F, U, V, E>),
    gone: (Stage<A, F>, Ask<A, F, U, V, E>),
) where F: FnOnce(T) -> U
    requires
        pending(first),
        pending(second),
        and_then_turned::<A, F, T, E, V, U>(Stage::Idle(a, f), Event::Interest, stages.0, asks.0),
        and_then_turned::<A, F, T, E, V, U>(stages.0, Event::First(res1), stages.1, asks.1),
        stages.1 is Second ==> and_then_turned::<A, F, T, E, V, U>(
            stages.1,
            Event::Second(res2),
            stages.2,
            asks.2,
        ),
        and_then_turned::<A, F, T, E, V, U>(Stage::Idle(a, f), Event::Gone, gone.0, gone.1),
    ensures
        asks.0 == Ask::<A, F, U, V, E>::First(a),
        gets(first, k1, res1),
        res1 matches Ok(v) ==> {
            &&& asks.1 is Second
            &&& call_ensures(f, (v,), asks.1->Second_0)
            &&& gets(second, k2, res2)
            &&& asks.2 == Ask::<A, F, U, V, E>::Settle(res2, None)
            &&& gets(composed::<V, E, C3, D3, K>(id, g), k, res2)
        },
        res1 matches Err(e) ==> {
            &&& asks.1 == Ask::<A, F, U, V, E>::Settle(Err(e), Some(f))
            &&& gets(composed::<V, E, C3, D3, K>(id, g), k, Err(e))
        },
        gone.1 == Ask::<A, F, U, V, E>::Discard(a, f),
        told_of_cancellation(first, first.canceled().1),
        told_of_cancellation(second, second.canceled().1),
{
}

/// `or_else` on pending computations. With interest in the result the first part is
/// asked. Its value is the result, and the function comes back unused. Its error is
/// handed to the function, what that returns is asked, and its outcome is the result.
pub proof fn law_or_else_on_pending<A, F, T, E, U, C, D, C2, D2, C3, D3, K>(
    a: A,
    f: F,
    first: CoreView<T, E, C, D, K>,
    second: CoreView<T, E, C2, D2, K>,
    id: int,
    g: D3,
    k1: C,
    k2: C2,
    k: C3,
    res1: AsyncResult<T, E>,
    res2: AsyncResult<T, E>,
    stages: (Stage<A, F>, Stage<A, F>, Stage<A, F>),
    asks: (Ask<A, F, U, T, E>, Ask<A, F, U, T, E>, Ask<A, F, U, T, E>),
    gone: (Stage<A, F>, Ask<A, F, U, T, E>),
) where F: FnOnce(AsyncError<E>) -> U
    requires
        pending(first),
        pending(second),
        or_else_turned::<A, F, T, E, U>(Stage::Idle(a, f), Event::Interest, stages.0, asks.0),
        or_else_turned::<A, F, T, E, U>(stages.0, Event::First(res1), stages.1, asks.1),
        stages.1 is Second ==> or_else_turned::<A, F, T, E, U>(
            stages.1,
            Event::Second(res2),
            stages.2,
            asks.2,
        ),
        or_else_turned::<A, F, T, E, U>(Stage::Idle(a, f), Event::Gone, gone.0, gone.1),
    ensures
        asks.0 == Ask::<A, F, U, T, E>::First(a),
        gets(first, k1, res1),
        res1 matches Ok(v) ==> {
            &&& asks.1 == Ask::<A, F, U, T, E>::Settle(Ok(v), Some(f))
            &&& gets(composed::<T, E, C3, D3, K>(id, g), k, Ok(v))
        },
        res1 matches Err(e) ==> {
            &&& asks.1 is Second
            &&& call_ensures(f, (e,), asks.1->Second_0)
            &&& gets(second, k2, res2)
            &&& asks.2 == Ask::<A, F, U, T, E>::Settle(res2, None)
            &&& gets(composed::<T, E, C3, D3, K>(id, g), k, res2)
        },
        gone.1 == Ask::<A, F, U, T, E>::Discard(a, f),
        told_of_cancellation(first, first.canceled().1),
        told_of_cancellation(second, second.canceled().1),
{
}

/// `handle` on pending computations. With interest in the result the first part is asked,
/// its outcome, whatever it is, is handed to the function once, what that returns is
/// asked, and its outcome is the result.
pub proof fn law_handle_on_pending<A, F, T, E, V, W, U, C, D, C2, D2, C3, D3, K>(
    a: A,
    f: F,
    first: CoreView<T, E, C, D, K>,
    second: CoreView<V, W, C2, D2, K>,
    id: int,
    g: D3,
    k1: C,
    k2: C2,
    k: C3,
    res1: AsyncResult<T, E>,
    res2: AsyncResult<V, W>,
    stages: (Stage<A, F>, Stage<A, F>, Stage<A, F>),
    asks: (Ask<A, F, U, V, W>, Ask<A, F, U, V, W>, Ask<A, F, U, V, W>),
    gone: (Stage<A, F>, Ask<A, F, U, V, W>),
) where F: FnOnce(AsyncResult<T, E>) -> U
    requires
        pending(first),
        pending(second),
        handle_turned::<A, F, T, E, V, W, U>(Stage::Idle(a, f), Event::Interest, stages.0, asks.0),
        handle_turned::<A, F, T, E, V, W, U>(stages.0, Event::First(res1), stages.1, asks.1),
        stages.1 is Second ==> handle_turned::<A, F, T, E, V, W, U>(
            stages.1,
            Event::Second(res2),
            stages.2,
            asks.2,
        ),
        handle_turned::<A, F, T, E, V, W, U>(Stage::Idle(a, f), Event::Gone, gone.0, gone.1),
    ensures
        asks.0 == Ask::<A, F, U, V, W>::First(a),
        gets(first, k1, res1),
        asks.1 is Second,
        call_ensures(f, (res1,), asks.1->Second_0),
        gets(second, k2, res2),
        asks.2 == Ask::<A, F, U, V, W>::Settle(res2, None),
        gets(composed::<V, W, C3, D3, K>(id, g), k, res2),
        gone.1 == Ask::<A, F, U, V, W>::Discard(a, f),
        told_of_cancellation(first, first.canceled().1),
        told_of_cancellation(second, second.canceled().1),
{
}

/// `and` on pending computations. With interest in the result the first part is asked,
/// then the second one, whose outcome is the result. An error of the first part is the
/// result, and the second part is to be given up, of which its producer is told.
pub proof fn law_and_on_pending<A, B, T, E, V, C, D, C2, D2, C3, D3, K>(
    a: A,
    b: B,
    first: CoreView<T, E, C, D, K>,
    second: CoreView<V, E, C2, D2, K>,
    id: int,
    g: D3,
    k1: C,
    k2: C2,
    k: C3,
    res1: AsyncResult<T, E>,
    res2: AsyncResult<V, E>,
    stages: (Stage<A, B>, Stage<A, B>, Stage<A, B>),
    asks: (Ask<A, B, B, V, E>, Ask<A, B, B, V, E>, Ask<A, B, B, V, E>),
    gone: (Stage<A, B>, Ask<A, B, B, V, E>),
)
    requires
        pending(first),
        pending(second),
        and_turned::<A, B, T, E, V>(Stage::Idle(a, b), Event::Interest, stages.0, asks.0),
        and_turned::<A, B, T, E, V>(stages.0, Event::First(res1), stages.1, asks.1),
        stages.1 is Second ==> and_turned::<A, B, T, E, V>(
            stages.1,
            Event::Second(res2),
            stages.2,
            asks.2,
        ),
        and_turned::<A, B, T, E, V>(Stage::Idle(a, b), Event::Gone, gone.0, gone.1),
    ensures
        asks.0 == Ask::<A, B, B, V, E>::First(a),
        gets(first, k1, res1),
        res1 is Ok ==> {
            &&& asks.1 == Ask::<A, B, B, V, E>::Second(b)
            &&& gets(second, k2, res2)
            &&& asks.2 == Ask::<A, B, B, V, E>::Settle(res2, None)
            &&& gets(composed::<V, E, C3, D3, K>(id, g), k, res2)
        },
        res1 matches Err(e) ==> {
            &&& asks.1 == Ask::<A, B, B, V, E>::Settle(Err(e), Some(b))
            &&& gets(composed::<V, E, C3, D3, K>(id, g), k, Err(e))
        },
        gone.1 == Ask::<A, B, B, V, E>::Discard(a, b),
        told_of_cancellation(first, first.canceled().1),
        told_of_cancellation(second, second.canceled().1),
{
}

/// `or` on pending computations. With interest in the result the first part is asked. Its
/// value is the result, and the second part is to be given up, of which its producer is
/// told. On an error of the first part the second one is asked, whose outcome is the
/// result.
pub proof fn law_or_on_pending<A, B, T, E, C, D, C2, D2, C3, D3, K>(
    a: A,
    b: B,
    first: CoreView<T, E, C, D, K>,
    second: CoreView<T, E, C2, D2, K>,
    id: int,
    g: D3,
    k1: C,
    k2: C2,
    k: C3,
    res1: AsyncResult<T, E>,
    res2: AsyncResult<T, E>,
    stages: (Stage<A, B>, Stage<A, B>, Stage<A, B>),
    asks: (Ask<A, B, B, T, E>, Ask<A, B, B, T, E>, Ask<A, B, B, T, E>),
    gone: (Stage<A, B>, Ask<A, B, B, T, E>),
)
    requires
        pending(first),
        pending(second),
        or_turned::<A, B, T, E>(Stage::Idle(a, b), Event::Interest, stages.0, asks.0),
        or_turned::<A, B, T, E>(stages.0, Event::First(res1), stages.1, asks.1),
        stages.1 is Second ==> or_turned::<A, B, T, E>(
            stages.1,
            Event::Second(res2),
            stages.2,
            asks.2,
        ),
        or_turned::<A, B, T, E>(Stage::Idle(a, b), Event::Gone, gone.0, gone.1),
    ensures
        asks.0 == Ask::<A, B, B, T, E>::First(a),
        gets(first, k1, res1),
        res1 matches Ok(v) ==> {
            &&& asks.1 == Ask::<A, B, B, T, E>::Settle(Ok(v), Some(b))
            &&& gets(composed::<T, E, C3, D3, K>(id, g), k, Ok(v))
        },
        res1 is Err ==> {
            &&& asks.1 == Ask::<A, B, B, T, E>::Second(b)
            &&& gets(second, k2, res2)
            &&& asks.2 == Ask::<A, B, B, T, E>::Settle(res2, None)
            &&& gets(composed::<T, E, C3, D3, K>(id, g), k, res2)
        },
        gone.1 == Ask::<A, B, B, T, E>::Discard(a, b),
        told_of_cancellation(first, first.canceled().1),
        told_of_cancellation(second, second.canceled().1),
{
}

} // verus!
