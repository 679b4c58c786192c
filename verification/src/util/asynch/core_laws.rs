//! What the operations on a core are for, one by one.
//!
//! The laws speak of what stands in the core before and after an operation, the value and
//! who waits on either side, and of what its caller owes.
use super::cell::{Action, Core, CoreInner, CoreView, OptionCore, WaitStrategy};
use super::error::{AsyncError, AsyncResult};
use super::state::State;
use vstd::prelude::*;

verus! {

/// Whoever waited on the side of the producer still does, or is told now.
pub open spec fn producer_not_forgotten<T, E, C, D, K>(
    before: CoreView<T, E, C, D, K>,
    after: CoreView<T, E, C, D, K>,
    action: Action<T, E, C, D, K>,
) -> bool {
    match before.producer {
        None => true,
        Some(WaitStrategy::Callback(g)) => after.producer == before.producer || (action is Produce
            && action->Produce_0 == g),
        Some(WaitStrategy::Parked(k)) => after.producer == before.producer || action
            == Action::<T, E, C, D, K>::Unpark(k),
    }
}

/// Whoever waited on the side of the consumer still does, or is told now.
pub open spec fn consumer_not_forgotten<T, E, C, D, K>(
    before: CoreView<T, E, C, D, K>,
    after: CoreView<T, E, C, D, K>,
    action: Action<T, E, C, D, K>,
) -> bool {
    match before.consumer {
        None => true,
        Some(WaitStrategy::Callback(f)) => after.consumer == before.consumer || (action is Consume
            && action->Consume_0 == f),
        Some(WaitStrategy::Parked(k)) => after.consumer == before.consumer || action
            == Action::<T, E, C, D, K>::Unpark(k),
    }
}

/// Nobody waits for what is there: a consumer waits beside a value, and a producer beside a
/// consumer or a cancellation, only while a callback of that side runs.
pub open spec fn nobody_waits_in_vain<T, E, C, D, K>(c: CoreView<T, E, C, D, K>) -> bool {
    &&& c.consumer is Some && c.val is Some ==> c.state.consuming
    &&& c.producer is Some && c.consumer is Some ==> c.state.producing
    &&& c.producer is Some && c.state.lifecycle is ProducerNotifyCanceled ==> c.state.producing
    &&& c.producer is Some ==> !(c.state.lifecycle is Canceled)
    &&& c.consumer is Some ==> !(c.state.lifecycle is Canceled)
}

/// A producer callback is called with a handle to its core where a consumer waits, and with
/// the news of the cancellation where the consumer has canceled. From then on it runs.
pub open spec fn producer_told_truly<T, E, C, D, K>(
    after: CoreView<T, E, C, D, K>,
    action: Action<T, E, C, D, K>,
) -> bool {
    action matches Action::Produce(_, told) ==> {
        &&& after.state.producing
        &&& told matches Ok(core) ==> core@ == after.id && after.consumer is Some
        &&& told is Ok <==> !(after.state.lifecycle is Canceled)
        &&& told matches Err(e) ==> e is CancellationError
    }
}

/// The lifecycle of a core tells what stands in it: a value, and who waits on either side.
pub proof fn law_lifecycle_tells_what_is_there<T, E, C, D, K>(
    cell: &CoreInner<T, E, C, D, K>,
    ready: bool,
    failed: bool,
    producer_ready: bool,
    canceled: bool,
)
    requires
        cell.wf(),
        call_ensures(CoreInner::<T, E, C, D, K>::consumer_is_ready, (cell,), ready),
        call_ensures(CoreInner::<T, E, C, D, K>::consumer_is_err, (cell,), failed),
        call_ensures(CoreInner::<T, E, C, D, K>::producer_is_ready, (cell,), producer_ready),
        call_ensures(CoreInner::<T, E, C, D, K>::producer_is_err, (cell,), canceled),
    ensures
        ({
            let c = cell@;
            let l = c.state.lifecycle;
            &&& c.val is Some <==> l is Ready || l is ReadyProducerWait || l is ConsumerNotify
            &&& c.consumer is Some <==> l is ConsumerWait || l is ConsumerNotify
                || l is ProducerNotify
            &&& c.producer is Some <==> l is ProducerWait || l is ReadyProducerWait
                || l is ProducerNotify || l is ProducerNotifyCanceled
            &&& nobody_waits_in_vain(c)
            &&& ready <==> c.val is Some && c.consumer is None
            &&& failed <==> c.consumer is None && c.val is Some && c.val->0 is Err
            &&& canceled <==> l is Canceled
            &&& producer_ready <==> canceled || ready || (c.consumer is Some && c.producer is None
                && c.val is None)
        }),
{
    cell.lemma_wf();
}

/// Who may do what, by what stands in the core.
pub proof fn law_who_may_do_what<T, E, C, D, K>(
    cell: &CoreInner<T, E, C, D, K>,
    consume: bool,
    wait: bool,
    produce: bool,
    cancel: bool,
    complete: bool,
    acquire: bool,
)
    requires
        cell.wf(),
        call_ensures(CoreInner::<T, E, C, D, K>::can_consume, (cell,), consume),
        call_ensures(CoreInner::<T, E, C, D, K>::can_await, (cell,), wait),
        call_ensures(CoreInner::<T, E, C, D, K>::can_produce, (cell,), produce),
        call_ensures(CoreInner::<T, E, C, D, K>::can_cancel, (cell,), cancel),
        call_ensures(CoreInner::<T, E, C, D, K>::can_complete, (cell,), complete),
        call_ensures(CoreInner::<T, E, C, D, K>::can_acquire, (cell,), acquire),
    ensures
        ({
            let c = cell@;
            let l = c.state.lifecycle;
            let over = l is Canceled || l is ProducerNotifyCanceled;
            &&& cancel <==> c.consumer is None && !over
            &&& consume <==> cancel && !(c.val is Some && c.producer is Some && c.state.consuming)
            &&& wait <==> cancel && (c.val is Some || !c.state.consuming)
            &&& produce <==> c.producer is None && !(c.val is Some && c.consumer is Some)
            &&& complete <==> c.producer is None && c.val is None
            &&& acquire <==> c.state.refs < usize::MAX / 64
        }),
{
    cell.lemma_wf();
}

/// What it comes to that the consumer gives up.
pub open spec fn consumer_gone<T, E, C, D, K>(
    c: CoreView<T, E, C, D, K>,
    after: CoreView<T, E, C, D, K>,
    r: Action<T, E, C, D, K>,
) -> bool {
    &&& after.val is None
    &&& after.consumer is None
    &&& after.id == c.id
    &&& after.state.refs == c.state.refs
    &&& after.state.consuming == c.state.consuming
    &&& producer_not_forgotten(c, after, r)
    &&& producer_told_truly(after, r)
    &&& nobody_waits_in_vain(after)
    &&& match c.producer {
        Some(w) => if c.state.producing {
            &&& r is Idle
            &&& after.producer == Some(w)
            &&& after.state.producing
            &&& after.state.lifecycle is ProducerNotifyCanceled
        } else {
            &&& after.producer is None
            &&& after.state.lifecycle is Canceled
            &&& w matches WaitStrategy::Callback(g) ==> r
                == Action::<T, E, C, D, K>::Produce(g, Err(AsyncError::CancellationError))
                && after.state.producing
            &&& w matches WaitStrategy::Parked(k) ==> r == Action::<T, E, C, D, K>::Unpark(
                k,
            ) && !after.state.producing
        },
        None => {
            &&& r is Idle
            &&& after.producer is None
            &&& after.state.lifecycle is Canceled
            &&& after.state.producing == c.state.producing
        },
    }
}

/// Giving up on the side of the consumer. The value is dropped. A producer that waits is told
/// that the consumer is gone: now, its callback by a call and its thread by a wake-up, or, while
/// one of its callbacks runs, as soon as that has returned. Nothing else changes.
pub proof fn law_canceling_tells_the_producer<T, E, C, D, K>(
    cell: &mut CoreInner<T, E, C, D, K>,
    r: Action<T, E, C, D, K>,
)
    requires
        old(cell).wf(),
        old(cell)@.consumer is None,
        !(old(cell)@.state.lifecycle is Canceled),
        !(old(cell)@.state.lifecycle is ProducerNotifyCanceled),
        call_ensures(CoreInner::<T, E, C, D, K>::cancel, (cell,), r),
    ensures
        consumer_gone(old(cell)@, final(cell)@, r),
        final(cell).requests() == old(cell).requests(),
{
    old(cell).lemma_wf();
}

/// A producer callback that waits when the consumer gives up is called with the news: by the
/// cancellation itself, or by the return of the callback that ran meanwhile.
pub proof fn law_waiting_callback_hears_of_the_cancellation<T, E, C, D, K>(
    cell: &mut CoreInner<T, E, C, D, K>,
    r: Action<T, E, C, D, K>,
    later: &mut CoreInner<T, E, C, D, K>,
    s: Action<T, E, C, D, K>,
    g: D,
)
    requires
        old(cell).wf(),
        old(cell)@.consumer is None,
        !(old(cell)@.state.lifecycle is Canceled),
        !(old(cell)@.state.lifecycle is ProducerNotifyCanceled),
        old(cell)@.producer == Some(WaitStrategy::<D, K>::Callback(g)),
        call_ensures(CoreInner::<T, E, C, D, K>::cancel, (cell,), r),
        *old(later) == *final(cell),
        old(later).wf(),
        old(cell)@.state.producing ==> call_ensures(
            CoreInner::<T, E, C, D, K>::producer_done,
            (later,),
            s,
        ),
    ensures
        ({
            let news = Action::<T, E, C, D, K>::Produce(g, Err(AsyncError::CancellationError));
            &&& !old(cell)@.state.producing ==> r == news
            &&& old(cell)@.state.producing ==> r is Idle && s == news
        }),
{
    old(cell).lemma_wf();
    old(later).lemma_wf();
}

/// What it comes to that the producer provides `val`.
pub open spec fn value_provided<T, E, C, D, K>(
    c: CoreView<T, E, C, D, K>,
    after: CoreView<T, E, C, D, K>,
    val: AsyncResult<T, E>,
    r: Action<T, E, C, D, K>,
) -> bool {
    &&& after.id == c.id
    &&& after.producer is None
    &&& after.state.refs == c.state.refs
    &&& after.state.producing == c.state.producing
    &&& consumer_not_forgotten(c, after, r)
    &&& nobody_waits_in_vain(after)
    &&& if c.state.lifecycle is Canceled {
        after == c && r is Idle
    } else {
        match c.consumer {
            Some(WaitStrategy::Callback(f)) => if c.state.consuming {
                r is Idle && after.val == Some(val) && after.consumer == c.consumer
                    && after.state.consuming
            } else {
                r == Action::<T, E, C, D, K>::Consume(f, val) && after.val is None
                    && after.consumer is None && after.state.consuming
                    && after.state.lifecycle is New
            },
            Some(WaitStrategy::Parked(k)) => r == Action::<T, E, C, D, K>::Unpark(k)
                && after.val == Some(val) && after.consumer is None
                && after.state.lifecycle is Ready && after.state.consuming
                == c.state.consuming,
            None => r is Idle && after.val == Some(val) && after.consumer is None
                && after.state.lifecycle is Ready && after.state.consuming
                == c.state.consuming,
        }
    }
}

/// Providing the value. One that the consumer waits for by a callback is handed to it, one for
/// which a thread waits is kept and the thread is woken, and any other one is kept. While a
/// consumer callback runs the value waits with the next one. Where the consumer has given up
/// nothing changes.
pub proof fn law_completing_provides_the_value<T, E, C, D, K>(
    cell: &mut CoreInner<T, E, C, D, K>,
    val: AsyncResult<T, E>,
    r: Action<T, E, C, D, K>,
)
    requires
        old(cell).wf(),
        old(cell)@.producer is None,
        old(cell)@.val is None,
        call_ensures(CoreInner::<T, E, C, D, K>::complete, (cell, val), r),
    ensures
        value_provided(old(cell)@, final(cell)@, val, r),
        final(cell).requests() == old(cell).requests(),
{
    old(cell).lemma_wf();
}

/// What the side of the producer is told when the consumer asks and no value is there, be it
/// by a callback or with a thread.
pub open spec fn interest_is_told<T, E, C, D, K>(
    c: CoreView<T, E, C, D, K>,
    after: CoreView<T, E, C, D, K>,
    r: Action<T, E, C, D, K>,
) -> bool {
    match c.producer {
        None => r is Idle && after.producer is None && after.state.producing == c.state.producing
            && after.state.refs == c.state.refs && after.state.lifecycle is ConsumerWait,
        Some(w) => if c.state.producing {
            r is Idle && after.producer == c.producer && after.state.producing && after.state.refs
                == c.state.refs
        } else {
            &&& after.producer is None
            &&& after.state.lifecycle is ConsumerWait
            &&& w matches WaitStrategy::Callback(g) ==> (r matches Action::Produce(h, Ok(core)) && h
                == g && core@ == c.id && after.state.producing && after.state.refs == c.state.refs
                + 1)
            &&& w matches WaitStrategy::Parked(k) ==> r == Action::<T, E, C, D, K>::Unpark(k)
                && !after.state.producing && after.state.refs == c.state.refs
        },
    }
}

/// What it comes to that the consumer asks for the value by the callback `f`.
pub open spec fn value_asked_for<T, E, C, D, K>(
    c: CoreView<T, E, C, D, K>,
    after: CoreView<T, E, C, D, K>,
    f: C,
    r: Action<T, E, C, D, K>,
) -> bool {
    &&& after.id == c.id
    &&& producer_not_forgotten(c, after, r)
    &&& producer_told_truly(after, r)
    &&& nobody_waits_in_vain(after)
    &&& match c.val {
        Some(val) => {
            &&& after.producer == c.producer
            &&& after.state.producing == c.state.producing
            &&& after.state.refs == c.state.refs
            &&& after.state.consuming
            &&& if c.state.consuming {
                r is Idle && after.val == c.val && after.consumer == Some(
                    WaitStrategy::<C, K>::Callback(f),
                )
            } else {
                r == Action::<T, E, C, D, K>::Consume(f, val) && after.val is None
                    && after.consumer is None
            }
        },
        None => {
            &&& after.val is None
            &&& after.consumer == Some(WaitStrategy::<C, K>::Callback(f))
            &&& after.state.consuming == c.state.consuming
            &&& interest_is_told(c, after, r)
        },
    }
}

/// Asking for the value by a callback. A value that is there goes to the callback at once, or,
/// while another consumer callback runs, after that. Otherwise the callback waits, and a producer
/// that waits is told of the interest: now, or after its callback that runs.
pub proof fn law_receiving_gets_the_value<T, E, C, D, K>(
    cell: &mut CoreInner<T, E, C, D, K>,
    f: C,
    r: Action<T, E, C, D, K>,
)
    requires
        old(cell).wf(),
        old(cell)@.consumer is None,
        !(old(cell)@.state.lifecycle is Canceled),
        !(old(cell)@.state.lifecycle is ProducerNotifyCanceled),
        !(old(cell)@.val is Some && old(cell)@.producer is Some && old(cell)@.state.consuming),
        call_ensures(CoreInner::<T, E, C, D, K>::consumer_receive, (cell, f), r),
    ensures
        value_asked_for(old(cell)@, final(cell)@, f, r),
        final(cell).requests() == old(cell).requests().wrapping_add(1),
{
    old(cell).lemma_wf();
    Core::lemma_handle(old(cell)@.id);
}

/// What a turn of waiting for the value with `thread` comes to.
pub open spec fn value_awaited<T, E, C, D, K>(
    c: CoreView<T, E, C, D, K>,
    after: CoreView<T, E, C, D, K>,
    thread: K,
    r: (Option<AsyncResult<T, E>>, Action<T, E, C, D, K>),
) -> bool {
    &&& after.id == c.id
    &&& after.val is None
    &&& after.state.consuming == c.state.consuming
    &&& r.0 == c.val
    &&& producer_not_forgotten(c, after, r.1)
    &&& producer_told_truly(after, r.1)
    &&& nobody_waits_in_vain(after)
    &&& if c.val is Some {
        r.1 is Idle && after.consumer is None && after.producer == c.producer
            && after.state.producing == c.state.producing && after.state.refs
            == c.state.refs
    } else {
        after.consumer == Some(WaitStrategy::<C, K>::Parked(thread)) && interest_is_told(
            c,
            after,
            r.1,
        )
    }
}

/// One turn of waiting for the value with a thread. A value that is there comes back at once and
/// is gone from the core. Otherwise the thread is noted, and a producer that waits is told of the
/// interest as for a callback.
pub proof fn law_awaiting_gets_the_value<T, E, C, D, K>(
    cell: &mut CoreInner<T, E, C, D, K>,
    thread: K,
    r: (Option<AsyncResult<T, E>>, Action<T, E, C, D, K>),
)
    requires
        old(cell).wf(),
        old(cell)@.consumer is None,
        !(old(cell)@.state.lifecycle is Canceled),
        !(old(cell)@.state.lifecycle is ProducerNotifyCanceled),
        old(cell)@.val is Some || !old(cell)@.state.consuming,
        call_ensures(CoreInner::<T, E, C, D, K>::consumer_await, (cell, thread), r),
    ensures
        value_awaited(old(cell)@, final(cell)@, thread, r),
        final(cell).requests() == old(cell).requests(),
{
    old(cell).lemma_wf();
    Core::lemma_handle(old(cell)@.id);
}

/// What it comes to that the consumer looks for the value.
pub open spec fn value_looked_for<T, E, C, D, K>(
    c: CoreView<T, E, C, D, K>,
    after: CoreView<T, E, C, D, K>,
    r: Option<AsyncResult<T, E>>,
) -> bool {
    &&& if c.consumer is None {
        &&& r == c.val
        &&& after.val is None
        &&& after.id == c.id
        &&& after.consumer is None
        &&& after.producer == c.producer
        &&& after.state.consuming == c.state.consuming
        &&& after.state.producing == c.state.producing
        &&& after.state.refs == c.state.refs
        &&& nobody_waits_in_vain(after)
        &&& c.val is None ==> after == c
    } else {
        r is None && after == c
    }
}

/// Looking for the value: it comes back and is gone from the core, or nothing changes.
pub proof fn law_polling_takes_the_value<T, E, C, D, K>(
    cell: &mut CoreInner<T, E, C, D, K>,
    r: Option<AsyncResult<T, E>>,
)
    requires
        old(cell).wf(),
        call_ensures(CoreInner::<T, E, C, D, K>::consumer_poll, (cell,), r),
    ensures
        value_looked_for(old(cell)@, final(cell)@, r),
        final(cell).requests() == old(cell).requests(),
{
    old(cell).lemma_wf();
}

/// The return of a consumer callback: the value that came meanwhile goes to the callback that
/// waits for it, and otherwise nobody is called.
pub proof fn law_returned_consumer_makes_room_for_the_next<T, E, C, D, K>(
    cell: &mut CoreInner<T, E, C, D, K>,
    r: Action<T, E, C, D, K>,
)
    requires
        old(cell).wf(),
        old(cell)@.state.consuming,
        call_ensures(CoreInner::<T, E, C, D, K>::consumer_done, (cell,), r),
    ensures
        ({
            let c = old(cell)@;
            let after = final(cell)@;
            &&& after.id == c.id
            &&& after.producer == c.producer
            &&& after.state.producing == c.state.producing
            &&& after.state.refs == c.state.refs
            &&& final(cell).requests() == old(cell).requests()
            &&& consumer_not_forgotten(c, after, r)
            &&& nobody_waits_in_vain(after)
            &&& if c.consumer is Some && c.val is Some {
                &&& c.consumer->0 matches WaitStrategy::Callback(f) ==> r == Action::<
                    T,
                    E,
                    C,
                    D,
                    K,
                >::Consume(f, c.val->0)
                &&& c.consumer->0 is Callback
                &&& after.val is None
                &&& after.consumer is None
                &&& after.state.consuming
            } else {
                &&& r is Idle
                &&& after.val == c.val
                &&& after.consumer == c.consumer
                &&& !after.state.consuming
                &&& after.state.lifecycle == c.state.lifecycle
            }
        }),
{
    old(cell).lemma_wf();
}

/// What it comes to that the producer asks for the consumer by the callback `g`.
pub open spec fn interest_asked_for<T, E, C, D, K>(
    c: CoreView<T, E, C, D, K>,
    after: CoreView<T, E, C, D, K>,
    g: D,
    r: Action<T, E, C, D, K>,
) -> bool {
    &&& after.id == c.id
    &&& after.val == c.val
    &&& after.consumer == c.consumer
    &&& after.state.consuming == c.state.consuming
    &&& producer_told_truly(after, r)
    &&& nobody_waits_in_vain(after)
    &&& if c.state.producing || (c.consumer is None && !(c.state.lifecycle is Canceled)) {
        &&& r is Idle
        &&& after.producer == Some(WaitStrategy::<D, K>::Callback(g))
        &&& after.state.refs == c.state.refs
        &&& after.state.producing == c.state.producing
    } else {
        &&& after.producer is None
        &&& after.state.producing
        &&& if c.state.lifecycle is Canceled {
            r == Action::<T, E, C, D, K>::Produce(g, Err(AsyncError::CancellationError))
                && after.state.refs == c.state.refs
        } else {
            (r matches Action::Produce(h, Ok(core)) && h == g && core@ == c.id)
                && after.state.refs == c.state.refs + 1
        }
    }
}

/// Asking for the interest of the consumer by a callback. It is called at once where a consumer
/// waits for the value, with a handle, and where the consumer has given up, with the news; while
/// another producer callback runs, after that. Otherwise it waits.
pub proof fn law_producer_is_told_of_the_consumer<T, E, C, D, K>(
    cell: &mut CoreInner<T, E, C, D, K>,
    g: D,
    r: Action<T, E, C, D, K>,
)
    requires
        old(cell).wf(),
        old(cell)@.producer is None,
        !(old(cell)@.val is Some && old(cell)@.consumer is Some),
        call_ensures(CoreInner::<T, E, C, D, K>::producer_receive, (cell, g), r),
    ensures
        interest_asked_for(old(cell)@, final(cell)@, g, r),
        final(cell).requests() == old(cell).requests(),
{
    old(cell).lemma_wf();
    Core::lemma_handle(old(cell)@.id);
}

/// The return of a producer callback: the one that waits meanwhile is called where a consumer
/// waits for the value, with a handle, or where the consumer has given up, with the news.
/// Otherwise nobody is called.
pub proof fn law_returned_producer_makes_room_for_the_next<T, E, C, D, K>(
    cell: &mut CoreInner<T, E, C, D, K>,
    r: Action<T, E, C, D, K>,
)
    requires
        old(cell).wf(),
        old(cell)@.state.producing,
        call_ensures(CoreInner::<T, E, C, D, K>::producer_done, (cell,), r),
    ensures
        ({
            let c = old(cell)@;
            let after = final(cell)@;
            let news = c.consumer is Some || c.state.lifecycle is ProducerNotifyCanceled;
            &&& after.id == c.id
            &&& after.val == c.val
            &&& after.consumer == c.consumer
            &&& after.state.consuming == c.state.consuming
            &&& final(cell).requests() == old(cell).requests()
            &&& producer_not_forgotten(c, after, r)
            &&& producer_told_truly(after, r)
            &&& nobody_waits_in_vain(after)
            &&& if c.producer is Some && news {
                &&& c.producer->0 is Callback
                &&& after.producer is None
                &&& after.state.producing
                &&& c.producer->0 matches WaitStrategy::Callback(g) ==> if c.consumer is Some {
                    (r matches Action::Produce(h, Ok(core)) && h == g && core@ == c.id)
                        && after.state.refs == c.state.refs + 1
                } else {
                    r == Action::<T, E, C, D, K>::Produce(g, Err(AsyncError::CancellationError))
                        && after.state.refs == c.state.refs && after.state.lifecycle is Canceled
                }
            } else {
                &&& r is Idle
                &&& after.producer == c.producer
                &&& !after.state.producing
                &&& after.state.refs == c.state.refs
                &&& after.state.lifecycle == c.state.lifecycle
            }
        }),
{
    old(cell).lemma_wf();
    Core::lemma_handle(old(cell)@.id);
}

/// What the producer learns when it looks at the core: that the consumer has given up, or, with
/// a handle more, that it may go on, and nothing while neither is the case.
pub open spec fn producer_learns<T, E, C, D, K>(
    c: CoreView<T, E, C, D, K>,
    after: CoreView<T, E, C, D, K>,
    r: Option<AsyncResult<Core, ()>>,
) -> bool {
    let gone = c.state.lifecycle is Canceled;
    let may_go_on = (c.val is Some && c.consumer is None) || (c.val is None && c.consumer is Some
        && c.producer is None);
    &&& after.id == c.id
    &&& after.val == c.val
    &&& after.consumer == c.consumer
    &&& after.state.consuming == c.state.consuming
    &&& after.state.producing == c.state.producing
    &&& r is None <==> !gone && !may_go_on
    &&& gone ==> r == Some(Err::<Core, _>(AsyncError::<()>::CancellationError)) && after == c
    &&& may_go_on ==> (r matches Some(Ok(core)) && core@ == c.id) && after.state.refs
        == c.state.refs + 1 && after.producer == c.producer && after.state.lifecycle
        == c.state.lifecycle
}

/// A producer that looks for the consumer, or waits for it with a thread, learns the same, and a
/// thread that has to wait is noted.
pub proof fn law_producer_looks_for_the_consumer<T, E, C, D, K>(
    cell: &mut CoreInner<T, E, C, D, K>,
    r: Option<AsyncResult<Core, ()>>,
    other: &mut CoreInner<T, E, C, D, K>,
    thread: K,
    s: Option<AsyncResult<Core, ()>>,
)
    requires
        old(cell).wf(),
        call_ensures(CoreInner::<T, E, C, D, K>::producer_poll, (cell,), r),
        old(other).wf(),
        call_ensures(CoreInner::<T, E, C, D, K>::producer_await, (other, thread), s),
    ensures
        producer_learns(old(cell)@, final(cell)@, r),
        r is None ==> final(cell)@ == old(cell)@,
        final(cell).requests() == old(cell).requests(),
        producer_learns(old(other)@, final(other)@, s),
        final(other).requests() == old(other).requests(),
        s is None ==> final(other)@.producer == Some(WaitStrategy::<D, K>::Parked(thread))
            && final(other)@.state.refs == old(other)@.state.refs
            && final(other)@.state.lifecycle is ProducerWait,
{
    old(cell).lemma_wf();
    old(other).lemma_wf();
    Core::lemma_handle(old(cell)@.id);
    Core::lemma_handle(old(other)@.id);
}

/// Taking an interest back: the callback of the request that it is about comes back where it has
/// not been started, and everything else stays. Another request is left alone.
pub proof fn law_interest_is_taken_back<T, E, C, D, K>(
    cell: &mut CoreInner<T, E, C, D, K>,
    count: u64,
    r: Option<C>,
)
    requires
        old(cell).wf(),
        call_ensures(CoreInner::<T, E, C, D, K>::consumer_ready_cancel, (cell, count), r),
    ensures
        ({
            let c = old(cell)@;
            let after = final(cell)@;
            &&& final(cell).requests() == old(cell).requests()
            &&& r is Some <==> count == old(cell).requests() && (c.consumer matches Some(
                WaitStrategy::Callback(_),
            ))
            &&& r is None ==> after == c
            &&& r matches Some(f) ==> {
                &&& c.consumer == Some(WaitStrategy::<C, K>::Callback(f))
                &&& after.consumer is None
                &&& after.producer == c.producer
                &&& after.val == c.val
                &&& after.id == c.id
                &&& after.state.refs == c.state.refs
                &&& after.state.consuming == c.state.consuming
                &&& after.state.producing == c.state.producing
                &&& !(after.state.lifecycle is Canceled)
                &&& !(after.state.lifecycle is ProducerNotifyCanceled)
            }
        }),
{
    old(cell).lemma_wf();
    final(cell).lemma_wf();
}

/// Handles are counted: one more by each that is acquired, one less by each that is released, and
/// with the last one everything that stood in the core is gone.
pub proof fn law_handles_are_counted<T, E, C, D, K>(
    cell: &mut CoreInner<T, E, C, D, K>,
    core: Core,
    other: &mut CoreInner<T, E, C, D, K>,
    given_up: Core,
    last: bool,
)
    requires
        old(cell).wf(),
        call_ensures(CoreInner::<T, E, C, D, K>::acquire, (cell,), core),
        old(other).wf(),
        old(other)@.state.refs >= 1,
        call_ensures(CoreInner::<T, E, C, D, K>::release, (other, given_up), last),
    ensures
        ({
            let c = old(cell)@;
            let after = final(cell)@;
            &&& core@ == c.id
            &&& after.id == c.id
            &&& after.state.refs == c.state.refs + 1
            &&& after.state.lifecycle == c.state.lifecycle
            &&& after.state.consuming == c.state.consuming
            &&& after.state.producing == c.state.producing
            &&& after.val == c.val
            &&& after.consumer == c.consumer
            &&& after.producer == c.producer
        }),
        ({
            let c = old(other)@;
            let after = final(other)@;
            &&& last <==> c.state.refs == 1
            &&& after.id == c.id
            &&& after.state.refs + 1 == c.state.refs
            &&& after.state.lifecycle == c.state.lifecycle
            &&& last ==> after.val is None && after.consumer is None && after.producer is None
            &&& !last ==> after.val == c.val && after.consumer == c.consumer && after.producer
                == c.producer && after.state.consuming == c.state.consuming && after.state.producing
                == c.state.producing
        }),
{
}

/// A new core is empty, with one handle. One that starts with a value holds just that.
pub proof fn law_new_cores<T, E, C, D, K>(
    empty: CoreInner<T, E, C, D, K>,
    val: AsyncResult<T, E>,
    full: CoreInner<T, E, C, D, K>,
)
    requires
        call_ensures(CoreInner::<T, E, C, D, K>::new, (), empty),
        call_ensures(CoreInner::<T, E, C, D, K>::with_value, (val,), full),
    ensures
        empty@.val is None,
        empty@.state.lifecycle is New,
        full@.val == Some(val),
        full@.state.lifecycle is Ready,
        empty@.consumer is None && empty@.producer is None && empty@.state.refs == 1,
        full@.consumer is None && full@.producer is None && full@.state.refs == 1,
        !empty@.state.consuming && !empty@.state.producing,
        !full@.state.consuming && !full@.state.producing,
{
}

/// A handle in its slot is there until it is taken out, and comes out as it went in.
pub proof fn law_handle_is_taken_out_once(
    core: Core,
    slot: OptionCore,
    there: bool,
    seen: &Core,
    taking: &mut OptionCore,
    taken: Core,
    gone: bool,
)
    requires
        call_ensures(OptionCore::new, (core,), slot),
        call_ensures(OptionCore::is_some, (&slot,), there),
        call_ensures(OptionCore::get, (&slot,), seen),
        *old(taking) == slot,
        call_ensures(OptionCore::take, (taking,), taken),
        call_ensures(OptionCore::is_some, (&*final(taking),), gone),
    ensures
        there && !gone,
        seen@ == core@,
        taken@ == core@,
{
}

/// A consumer that read the state before the producer acted gives up, and asks for the value, as one
/// that reads it now: what it read makes no difference.
pub proof fn law_consumer_need_not_have_read_last<T, E, C, D, K>(
    cell: &mut CoreInner<T, E, C, D, K>,
    seen: State,
    r: Action<T, E, C, D, K>,
    other: &mut CoreInner<T, E, C, D, K>,
    read: State,
    f: C,
    s: Action<T, E, C, D, K>,
)
    requires
        old(cell).wf(),
        old(cell)@.consumer is None,
        !(old(cell)@.state.lifecycle is Canceled),
        !(old(cell)@.state.lifecycle is ProducerNotifyCanceled),
        call_ensures(CoreInner::<T, E, C, D, K>::cancel_from, (cell, seen), r),
        old(other).wf(),
        old(other)@.consumer is None,
        !(old(other)@.state.lifecycle is Canceled),
        !(old(other)@.state.lifecycle is ProducerNotifyCanceled),
        !(old(other)@.val is Some && old(other)@.producer is Some && old(other)@.state.consuming),
        call_ensures(CoreInner::<T, E, C, D, K>::consumer_receive_from, (other, read, f), s),
    ensures
        consumer_gone(old(cell)@, final(cell)@, r),
        final(cell).requests() == old(cell).requests(),
        value_asked_for(old(other)@, final(other)@, f, s),
        final(other).requests() == old(other).requests().wrapping_add(1),
{
    old(cell).lemma_wf();
    old(other).lemma_wf();
    Core::lemma_handle(old(other)@.id);
}

/// A producer that read the state before the consumer acted provides its value, and asks for the
/// interest of the consumer, as one that reads it now: what it read makes no difference.
pub proof fn law_producer_need_not_have_read_last<T, E, C, D, K>(
    cell: &mut CoreInner<T, E, C, D, K>,
    seen: State,
    val: AsyncResult<T, E>,
    r: Action<T, E, C, D, K>,
    other: &mut CoreInner<T, E, C, D, K>,
    read: State,
    g: D,
    s: Action<T, E, C, D, K>,
)
    requires
        old(cell).wf(),
        old(cell)@.producer is None,
        old(cell)@.val is None,
        call_ensures(CoreInner::<T, E, C, D, K>::complete_from, (cell, seen, val), r),
        old(other).wf(),
        old(other)@.producer is None,
        !(old(other)@.val is Some && old(other)@.consumer is Some),
        call_ensures(CoreInner::<T, E, C, D, K>::producer_receive_from, (other, read, g), s),
    ensures
        value_provided(old(cell)@, final(cell)@, val, r),
        final(cell).requests() == old(cell).requests(),
        interest_asked_for(old(other)@, final(other)@, g, s),
        final(other).requests() == old(other).requests(),
{
    old(cell).lemma_wf();
    old(other).lemma_wf();
    Core::lemma_handle(old(other)@.id);
}

/// What a core says of itself is what it holds: its state, and the number of the requests so far.
pub proof fn law_core_tells_its_state<T, E, C, D, K>(
    cell: &CoreInner<T, E, C, D, K>,
    state: State,
    count: u64,
)
    requires
        cell.wf(),
        call_ensures(CoreInner::<T, E, C, D, K>::state, (cell,), state),
        call_ensures(CoreInner::<T, E, C, D, K>::request_count, (cell,), count),
    ensures
        state@.lifecycle == cell@.state.lifecycle,
        state@.consuming == cell@.state.consuming,
        state@.producing == cell@.state.producing,
        state@.refs == cell@.state.refs,
        count == cell.requests(),
{
}

} // verus!
