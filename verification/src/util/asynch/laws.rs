//! What holds of the core of a future over several operations.
use super::cell::{Action, Core, CoreView, WaitStrategy};
use super::error::{AsyncError, AsyncResult};
use super::stream::{Head, Stream, StreamIter};
use vstd::prelude::*;

verus! {

/// The value that the producer provides is the value that the consumer callback
/// gets, whether the consumer asks before or after, and the core ends up the
/// same.
pub proof fn law_complete_and_receive_commute<T, E, C, D, K>(
    c: CoreView<T, E, C, D, K>,
    f: C,
    val: AsyncResult<T, E>,
)
    requires
        c.wf(),
        c.state.lifecycle is New,
        !c.state.consuming,
    ensures
        c.completed(val).1 is Idle,
        c.completed(val).0.received(f).1 == Action::<T, E, C, D, K>::Consume(f, val),
        c.received(f).1 is Idle,
        c.received(f).0.completed(val).1 == Action::<T, E, C, D, K>::Consume(f, val),
        c.completed(val).0.received(f).0 == c.received(f).0.completed(val).0,
{
}

/// A thread that waits for the value is woken when it is provided, and then
/// finds exactly that value.
pub proof fn law_complete_wakes_waiter<T, E, C, D, K>(
    c: CoreView<T, E, C, D, K>,
    thread: K,
    val: AsyncResult<T, E>,
)
    requires
        c.wf(),
        c.state.lifecycle is New,
        !c.state.consuming,
    ensures
        ({
            let waiting = c.consumer_waits(WaitStrategy::Parked(thread));
            let woken = waiting.0.completed(val);
            &&& waiting.1 is Idle
            &&& !waiting.0.ready()
            &&& woken.1 == Action::<T, E, C, D, K>::Unpark(thread)
            &&& woken.0.ready()
            &&& woken.0.val == Some(val)
            &&& woken.0.consumed(false) == c
        }),
{
}

/// A value can be provided again once the consumer callback of the last one has
/// returned: the core is as good as new.
pub proof fn law_core_is_reused<T, E, C, D, K>(
    c: CoreView<T, E, C, D, K>,
    f: C,
    val: AsyncResult<T, E>,
)
    requires
        c.wf(),
        c.state.lifecycle is New,
        !c.state.consuming,
    ensures
        c.received(f).0.completed(val).0.consumer_returned() == (
            c,
            Action::<T, E, C, D, K>::Idle,
        ),
{
}

/// Once the consumer has canceled, a value that the producer provides goes
/// nowhere and nothing changes.
pub proof fn law_canceled_is_final<T, E, C, D, K>(
    c: CoreView<T, E, C, D, K>,
    val: AsyncResult<T, E>,
)
    requires
        c.wf(),
        c.may_cancel(),
        c.canceled().0.state.lifecycle is Canceled,
    ensures
        c.canceled().0.val is None,
        c.canceled().0.completed(val) == (c.canceled().0, Action::<T, E, C, D, K>::Idle),
{
}

/// A producer that asks for the consumer is told of the cancellation exactly if
/// the consumer canceled, and gets a handle otherwise.
pub proof fn law_producer_told_of_cancellation<T, E, C, D, K>(
    c: CoreView<T, E, C, D, K>,
    g: D,
)
    requires
        c.wf(),
        c.may_produce(),
        c.producer_received(g).1 is Produce,
    ensures
        c.producer_received(g).1->Produce_0 == g,
        c.state.lifecycle is Canceled ==> c.producer_received(g).1->Produce_1 == Err::<Core, _>(
            AsyncError::<()>::CancellationError,
        ),
        !(c.state.lifecycle is Canceled) ==> c.producer_received(g).1->Produce_1 == Ok::<
            Core,
            AsyncError<()>,
        >(Core::handle(c.id)),
{
}

/// A producer that waits with a callback is told at once when the consumer
/// cancels, and when the consumer asks for the value.
pub proof fn law_waiting_producer_is_told<T, E, C, D, K>(
    c: CoreView<T, E, C, D, K>,
    g: D,
    f: C,
)
    requires
        c.wf(),
        c.state.lifecycle is New,
        !c.state.producing,
    ensures
        ({
            let waiting = c.producer_received(g);
            &&& waiting.1 is Idle
            &&& waiting.0.canceled().1 == Action::<T, E, C, D, K>::Produce(
                g,
                Err(AsyncError::CancellationError),
            )
            &&& waiting.0.received(f).1 == Action::<T, E, C, D, K>::Produce(g, Ok(Core::handle(c.id)))
        }),
{
}

/// A producer that waits while its own callback runs is told once that has
/// returned, be it of the interest of the consumer or of its cancellation.
pub proof fn law_producer_is_told_after_its_callback<T, E, C, D, K>(
    c: CoreView<T, E, C, D, K>,
    g: D,
    f: C,
)
    requires
        c.wf(),
        c.state.lifecycle is New,
        c.state.producing,
    ensures
        ({
            let waiting = c.producer_received(g);
            let canceled = waiting.0.canceled();
            let asked = waiting.0.received(f);
            &&& waiting.1 is Idle
            &&& canceled.1 is Idle
            &&& canceled.0.producer_returned().1 == Action::<T, E, C, D, K>::Produce(
                g,
                Err(AsyncError::CancellationError),
            )
            &&& canceled.0.producer_returned().0.state.lifecycle is Canceled
            &&& asked.1 is Idle
            &&& asked.0.producer_returned().1 == Action::<T, E, C, D, K>::Produce(
                g,
                Ok(Core::handle(c.id)),
            )
        }),
{
}

/// A consumer callback is started only when none runs, and runs from then on.
pub open spec fn starts_one_consumer<T, E, C, D, K>(
    before: CoreView<T, E, C, D, K>,
    step: (CoreView<T, E, C, D, K>, Action<T, E, C, D, K>),
) -> bool {
    step.1 is Consume ==> !before.state.consuming && step.0.state.consuming
}

/// A producer callback is started only when none runs, and runs from then on.
pub open spec fn starts_one_producer<T, E, C, D, K>(
    before: CoreView<T, E, C, D, K>,
    step: (CoreView<T, E, C, D, K>, Action<T, E, C, D, K>),
) -> bool {
    step.1 is Produce ==> !before.state.producing && step.0.state.producing
}

/// Callbacks of one side never nest: whatever the other calls are, a callback is
/// started only when none of its side runs.
pub proof fn law_callbacks_never_nest<T, E, C, D, K>(
    c: CoreView<T, E, C, D, K>,
    f: C,
    g: D,
    val: AsyncResult<T, E>,
)
    requires
        c.wf(),
    ensures
        c.may_consume() ==> starts_one_consumer(c, c.received(f)) && starts_one_producer(
            c,
            c.received(f),
        ),
        c.may_produce() ==> starts_one_consumer(c, c.producer_received(g)) && starts_one_producer(
            c,
            c.producer_received(g),
        ),
        c.may_cancel() ==> starts_one_consumer(c, c.canceled()) && starts_one_producer(
            c,
            c.canceled(),
        ),
        c.may_complete() ==> starts_one_consumer(c, c.completed(val)) && starts_one_producer(
            c,
            c.completed(val),
        ),
{
}

/// How many values a step has to account for: the one in the core and the one
/// that a callback gets.
pub open spec fn values_of<T, E, C, D, K>(
    step: (CoreView<T, E, C, D, K>, Action<T, E, C, D, K>),
) -> nat {
    (if step.0.val is Some { 1nat } else { 0nat }) + (if step.1 is Consume { 1nat } else { 0nat })
}

/// No operation but the cancellation loses a value, and none makes one: a value
/// that is provided to a core that is not canceled stays in the core or goes to
/// the consumer.
pub proof fn law_values_are_conserved<T, E, C, D, K>(
    c: CoreView<T, E, C, D, K>,
    f: C,
    g: D,
    val: AsyncResult<T, E>,
)
    requires
        c.wf(),
    ensures
        ({
            let here = values_of((c, Action::<T, E, C, D, K>::Idle));
            &&& c.may_consume() ==> values_of(c.received(f)) == here
            &&& c.may_produce() ==> values_of(c.producer_received(g)) == here
            &&& c.state.consuming ==> values_of(c.consumer_returned()) == here
            &&& c.state.producing ==> values_of(c.producer_returned()) == here
            &&& c.may_complete() && !(c.state.lifecycle is Canceled) ==> values_of(
                c.completed(val),
            ) == here + 1
            &&& c.may_cancel() ==> values_of(c.canceled()) == 0
        }),
{
}

/// Every operation keeps the invariant of the core.
pub proof fn law_invariant_is_kept<T, E, C, D, K>(
    c: CoreView<T, E, C, D, K>,
    f: C,
    g: D,
    thread: K,
    val: AsyncResult<T, E>,
)
    requires
        c.wf(),
    ensures
        c.may_consume() ==> c.received(f).0.wf(),
        c.may_await() ==> (if c.ready() {
            c.consumed(false).wf()
        } else {
            c.consumer_waits(WaitStrategy::Parked(thread)).0.wf()
        }),
        c.may_produce() ==> c.producer_received(g).0.wf(),
        c.may_cancel() ==> c.canceled().0.wf(),
        c.may_complete() ==> c.completed(val).0.wf(),
        c.state.consuming ==> c.consumer_returned().0.wf(),
        c.state.producing ==> c.producer_returned().0.wf(),
        c.retractable() ==> c.retracted().0.wf(),
{
}

/// Taking an interest back undoes it: the callback comes back and the core is as it
/// was. Once the value has been handed to the callback there is nothing to take
/// back.
pub proof fn law_retracting_undoes_receiving<T, E, C, D, K>(
    c: CoreView<T, E, C, D, K>,
    f: C,
    val: AsyncResult<T, E>,
)
    requires
        c.wf(),
        c.state.lifecycle is New || (c.state.lifecycle is ProducerWait && c.state.producing) || (
        c.state.lifecycle is Ready && c.state.consuming),
    ensures
        c.received(f).1 is Idle,
        c.received(f).0.retractable(),
        c.received(f).0.retracted() == (c, f),
        c.state.lifecycle is New && !c.state.consuming ==> !c.received(f).0.completed(
            val,
        ).0.retractable(),
{
}

/// A stream gives every value as it was sent, and is then ready for the next one:
/// whether the consumer asks before the value is sent or after it, it gets the value
/// with the rest of the stream, and the core is as it was, but for the handle of the
/// rest.
pub proof fn law_sent_value_arrives<T, E, C, D, K>(
    c: CoreView<Head<T, E>, E, C, D, K>,
    val: T,
    rest: Stream<T, E>,
    f: C,
)
    requires
        c.wf(),
        c.state.lifecycle is New,
        !c.state.consuming,
    ensures
        ({
            let head: AsyncResult<Head<T, E>, E> = Ok(Some((val, rest)));
            let sent = c.one_more().completed(head);
            let asked = c.received(f).0.one_more().completed(head);
            &&& sent.1 is Idle
            &&& sent.0.ready()
            &&& sent.0.val == Some(head)
            &&& sent.0.consumed(false) == c.one_more()
            &&& asked.1 == Action::<Head<T, E>, E, C, D, K>::Consume(f, head)
            &&& asked.0.consumer_returned() == (
                c.one_more(),
                Action::<Head<T, E>, E, C, D, K>::Idle,
            )
        }),
{
}

/// A stream that has ended, or failed, says so to its consumer in the same way.
pub proof fn law_end_of_stream_arrives<T, E, C, D, K>(
    c: CoreView<Head<T, E>, E, C, D, K>,
    end: AsyncResult<Head<T, E>, E>,
    f: C,
)
    requires
        c.wf(),
        c.state.lifecycle is New,
        !c.state.consuming,
        end is Err || end->Ok_0 is None,
    ensures
        c.completed(end).0.val == Some(end),
        c.received(f).0.completed(end).1 == Action::<Head<T, E>, E, C, D, K>::Consume(f, end),
{
}

/// A sender that is given up ends its stream, but not before the value that it has sent was
/// consumed: the consumer that asks for the next value, then or already, has the callback `f`
/// of the sender called, and gets the end from it. A consumer that is gone is told nothing.
pub proof fn law_discarded_sender_ends_the_stream<T, E, C, D, K>(
    c: CoreView<Head<T, E>, E, C, D, K>,
    f: D,
    g: C,
)
    requires
        c.wf(),
        c.may_produce(),
        !c.state.producing,
        !c.state.consuming,
    ensures
        ({
            let end: AsyncResult<Head<T, E>, E> = Ok(None);
            let given_up = c.producer_received(f);
            let taken = if c.ready() {
                given_up.0.consumed(false)
            } else {
                given_up.0
            };
            let asked = taken.received(g);
            &&& c.ready() ==> given_up.1 is Idle && given_up.0.ready() && given_up.0.val == c.val
            &&& c.ready() || c.state.lifecycle is New ==> {
                &&& given_up.1 is Idle
                &&& asked.1 == Action::<Head<T, E>, E, C, D, K>::Produce(
                    f,
                    Ok(Core::handle(c.id)),
                )
                &&& asked.0.completed(end).1 == Action::<Head<T, E>, E, C, D, K>::Consume(g, end)
            }
            &&& c.state.lifecycle is ConsumerWait ==> {
                &&& given_up.1 == Action::<Head<T, E>, E, C, D, K>::Produce(
                    f,
                    Ok(Core::handle(c.id)),
                )
                &&& given_up.0.completed(end).1 == c.completed(end).1
            }
            &&& c.state.lifecycle is Canceled ==> given_up.1 == Action::<
                Head<T, E>,
                E,
                C,
                D,
                K,
            >::Produce(f, Err(AsyncError::CancellationError))
        }),
{
}

/// What a parked thread gets of the head `head` of a stream, for which it waited before it was
/// sent, where `early` holds, or for which it asked afterwards. A producer callback that runs
/// has to return before the one that sends the head is started. The rest of the stream is a
/// handle more.
pub open spec fn awaited<T, E, C, D, K>(
    c: CoreView<Head<T, E>, E, C, D, K>,
    head: Head<T, E>,
    thread: K,
    early: bool,
) -> Option<AsyncResult<Head<T, E>, E>> {
    let waiting = c.consumer_waits(WaitStrategy::Parked(thread)).0;
    let asked = if !early {
        c
    } else if waiting.state.lifecycle is ProducerNotify {
        waiting.producer_returned().0
    } else {
        waiting
    };
    let counted = if head is Some {
        asked.one_more()
    } else {
        asked
    };
    let sent = counted.completed(Ok(head)).0;
    if sent.ready() {
        sent.val
    } else {
        None
    }
}

/// What is sent in one round of iterating over the stream of `vals`: the next value with the
/// rest of the stream, and in the last round the end.
pub open spec fn round<T, E>(vals: Seq<T>, rests: Seq<Stream<T, E>>, i: int) -> Head<T, E> {
    if i < vals.len() {
        Some((vals[i], rests[i]))
    } else {
        None
    }
}

/// Iterating over a stream gives the values in the order in which they were sent, then
/// nothing. In each round the core is free, or its producer waits for the interest that the
/// iterator shows; the iterator waits for the head, before it is sent or after, and goes on
/// with what it got. It holds on to the core until the end.
pub proof fn law_iterating_a_stream<T, E, C, D, K>(
    cores: Seq<CoreView<Head<T, E>, E, C, D, K>>,
    vals: Seq<T>,
    rests: Seq<Stream<T, E>>,
    threads: Seq<K>,
    early: Seq<bool>,
    iters: Seq<StreamIter<T, E>>,
    items: Seq<Option<T>>,
)
    requires
        items.len() == vals.len() + 1,
        iters.len() == items.len(),
        forall|i: int|
            0 <= i < items.len() ==> {
                let c = #[trigger] cores[i];
                &&& c.wf()
                &&& c.may_await()
                &&& c.state.lifecycle is New || (c.state.lifecycle is ProducerWait && early[i])
            },
        forall|i: int|
            0 <= i < vals.len() ==> (#[trigger] rests[i]).held() == Some(cores[i].id),
        forall|i: int|
            #![trigger items[i]]
            0 <= i < items.len() ==> (awaited(
                cores[i],
                round(vals, rests, i),
                threads[i],
                early[i],
            ) matches Some(Ok(head)) ==> iters[i].went_on(head, items[i])),
    ensures
        forall|i: int|
            #![trigger items[i]]
            0 <= i < items.len() ==> awaited(
                cores[i],
                round(vals, rests, i),
                threads[i],
                early[i],
            ) == Some(Ok::<Head<T, E>, AsyncError<E>>(round(vals, rests, i))),
        items == vals.map_values(|v: T| Some(v)).push(None),
        forall|i: int|
            0 <= i < vals.len() ==> (#[trigger] iters[i]).held() == Some(cores[i].id),
        iters.last().held() is None,
{
    assert forall|i: int| #![trigger items[i]] 0 <= i < items.len() implies awaited(
        cores[i],
        round(vals, rests, i),
        threads[i],
        early[i],
    ) == Some(Ok::<Head<T, E>, AsyncError<E>>(round(vals, rests, i))) by {
        let c = cores[i];
    }
    assert forall|i: int| 0 <= i < items.len() implies iters[i].went_on(
        round(vals, rests, i),
        #[trigger] items[i],
    ) by {}
    assert forall|i: int| 0 <= i < vals.len() implies (#[trigger] iters[i]).held() == Some(
        cores[i].id,
    ) by {
        assert(iters[i].went_on(round(vals, rests, i), items[i]));
        assert(rests[i].held() == Some(cores[i].id));
    }
    assert(iters.last().went_on(round(vals, rests, vals.len() as int), items.last()));
    assert(items =~= vals.map_values(|v: T| Some(v)).push(None));
}

} // verus!
