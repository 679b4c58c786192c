//! What the operations on the ends of futures and streams are for, one by one, and what they
//! come to one after the other.
use super::cell::{Action, Core, CoreInner, CoreView, WaitStrategy};
use super::core_laws::{
    consumer_gone, interest_asked_for, producer_learns, value_asked_for, value_awaited,
    value_looked_for, value_provided,
};
use super::error::{AsyncError, AsyncResult};
use super::future::{Complete, Future};
use super::receipt::{new, none, parts, Receipt};
use super::stream::{BusySender, Head, Sender, Stream, StreamIter};
use vstd::prelude::*;

verus! {

/// The consumer has neither asked for the value nor given it up.
pub open spec fn open_to_the_consumer<T, E, C, D, K>(c: CoreView<T, E, C, D, K>) -> bool {
    &&& c.consumer is None
    &&& !(c.state.lifecycle is Canceled)
    &&& !(c.state.lifecycle is ProducerNotifyCanceled)
}

/// The producer does not wait, and has provided no value that is still there.
pub open spec fn open_to_the_producer<T, E, C, D, K>(c: CoreView<T, E, C, D, K>) -> bool {
    c.producer is None && c.val is None
}

/// A future that asks for its value by a callback gets it, then or when it is provided, and gives
/// its handle back.
pub proof fn law_future_asks_by_a_callback<T, E, C, D, K>(
    end: Future<T, E>,
    cell: &mut CoreInner<T, E, C, D, K>,
    f: C,
    r: (Core, Action<T, E, C, D, K>),
)
    requires
        old(cell).wf(),
        open_to_the_consumer(old(cell)@),
        !(old(cell)@.val is Some && old(cell)@.producer is Some && old(cell)@.state.consuming),
        call_ensures(Future::<T, E>::receive::<C, D, K>, (end, cell, f), r),
    ensures
        r.0@ == old(cell)@.id,
        value_asked_for(old(cell)@, final(cell)@, f, r.1),
{
    old(cell).lemma_wf();
    Core::lemma_handle(old(cell)@.id);
}

/// A future that waits for its value with a thread gets it at once if it is there, else the thread is
/// noted.
pub proof fn law_future_waits_with_a_thread<T, E, C, D, K>(
    end: Future<T, E>,
    cell: &mut CoreInner<T, E, C, D, K>,
    thread: K,
    r: (Core, Option<AsyncResult<T, E>>, Action<T, E, C, D, K>),
)
    requires
        old(cell).wf(),
        open_to_the_consumer(old(cell)@),
        old(cell)@.val is Some || !old(cell)@.state.consuming,
        call_ensures(Future::<T, E>::wait::<C, D, K>, (end, cell, thread), r),
    ensures
        r.0@ == old(cell)@.id,
        value_awaited(old(cell)@, final(cell)@, thread, (r.1, r.2)),
{
    old(cell).lemma_wf();
    Core::lemma_handle(old(cell)@.id);
}

/// A future that is given up drops the value and tells the producer that waits.
pub proof fn law_future_is_given_up<T, E, C, D, K>(
    end: Future<T, E>,
    cell: &mut CoreInner<T, E, C, D, K>,
    r: (Core, Action<T, E, C, D, K>),
)
    requires
        old(cell).wf(),
        open_to_the_consumer(old(cell)@),
        call_ensures(Future::<T, E>::discard::<C, D, K>, (end, cell), r),
    ensures
        r.0@ == old(cell)@.id,
        consumer_gone(old(cell)@, final(cell)@, r.1),
{
    old(cell).lemma_wf();
    Core::lemma_handle(old(cell)@.id);
}

/// A stream that asks for its head by a callback gets it, then or when it is provided, and gives
/// its handle back.
pub proof fn law_stream_asks_by_a_callback<T, E, C, D, K>(
    end: Stream<T, E>,
    cell: &mut CoreInner<Head<T, E>, E, C, D, K>,
    f: C,
    r: (Core, Action<Head<T, E>, E, C, D, K>),
)
    requires
        old(cell).wf(),
        open_to_the_consumer(old(cell)@),
        !(old(cell)@.val is Some && old(cell)@.producer is Some && old(cell)@.state.consuming),
        call_ensures(Stream::<T, E>::receive::<C, D, K>, (end, cell, f), r),
    ensures
        r.0@ == old(cell)@.id,
        value_asked_for(old(cell)@, final(cell)@, f, r.1),
{
    old(cell).lemma_wf();
    Core::lemma_handle(old(cell)@.id);
}

/// A stream that waits for its head with a thread gets it at once if it is there, else the thread is
/// noted.
pub proof fn law_stream_waits_with_a_thread<T, E, C, D, K>(
    end: Stream<T, E>,
    cell: &mut CoreInner<Head<T, E>, E, C, D, K>,
    thread: K,
    r: (Core, Option<AsyncResult<Head<T, E>, E>>, Action<Head<T, E>, E, C, D, K>),
)
    requires
        old(cell).wf(),
        open_to_the_consumer(old(cell)@),
        old(cell)@.val is Some || !old(cell)@.state.consuming,
        call_ensures(Stream::<T, E>::wait::<C, D, K>, (end, cell, thread), r),
    ensures
        r.0@ == old(cell)@.id,
        value_awaited(old(cell)@, final(cell)@, thread, (r.1, r.2)),
{
    old(cell).lemma_wf();
    Core::lemma_handle(old(cell)@.id);
}

/// A stream that is given up drops the head and tells the producer that waits.
pub proof fn law_stream_is_given_up<T, E, C, D, K>(
    end: Stream<T, E>,
    cell: &mut CoreInner<Head<T, E>, E, C, D, K>,
    r: (Core, Action<Head<T, E>, E, C, D, K>),
)
    requires
        old(cell).wf(),
        open_to_the_consumer(old(cell)@),
        call_ensures(Stream::<T, E>::discard::<C, D, K>, (end, cell), r),
    ensures
        r.0@ == old(cell)@.id,
        consumer_gone(old(cell)@, final(cell)@, r.1),
{
    old(cell).lemma_wf();
    Core::lemma_handle(old(cell)@.id);
}

/// A stream that looks for its head gets it, with the handle to release, or comes back as it was.
pub proof fn law_stream_is_looked_at<T, E, C, D, K>(
    end: Stream<T, E>,
    cell: &mut CoreInner<Head<T, E>, E, C, D, K>,
    r: Result<(Core, AsyncResult<Head<T, E>, E>), Stream<T, E>>,
    ready: bool,
    failed: bool,
)
    requires
        old(cell).wf(),
        end.held() == Some(old(cell)@.id),
        call_ensures(Stream::<T, E>::poll::<C, D, K>, (end, cell), r),
        call_ensures(Stream::<T, E>::is_ready::<C, D, K>, (&end, &*old(cell)), ready),
        call_ensures(Stream::<T, E>::is_err::<C, D, K>, (&end, &*old(cell)), failed),
    ensures
        r is Ok <==> old(cell)@.val is Some && old(cell)@.consumer is None,
        r matches Ok(got) ==> got.0@ == old(cell)@.id && value_looked_for(old(cell)@, final(cell)@, Some(got.1)),
        r matches Err(back) ==> back.held() == end.held() && final(cell)@ == old(cell)@,
        ready <==> r is Ok,
        failed <==> (r matches Ok(got) && got.1 is Err),
{
    old(cell).lemma_wf();
    Core::lemma_handle(old(cell)@.id);
}

/// An iterator waits for the head as a stream does, keeps its handle meanwhile, and gives the rest of
/// the stream up as a stream does.
pub proof fn law_iterator_waits_for_the_head<T, E, C, D, K>(
    iter: &StreamIter<T, E>,
    cell: &mut CoreInner<Head<T, E>, E, C, D, K>,
    thread: K,
    r: (Option<AsyncResult<Head<T, E>, E>>, Action<Head<T, E>, E, C, D, K>),
    gone: StreamIter<T, E>,
    other: &mut CoreInner<Head<T, E>, E, C, D, K>,
    s: (Core, Action<Head<T, E>, E, C, D, K>),
)
    requires
        old(cell).wf(),
        open_to_the_consumer(old(cell)@),
        old(cell)@.val is Some || !old(cell)@.state.consuming,
        call_ensures(StreamIter::<T, E>::wait::<C, D, K>, (iter, cell, thread), r),
        old(other).wf(),
        open_to_the_consumer(old(other)@),
        call_ensures(StreamIter::<T, E>::discard::<C, D, K>, (gone, other), s),
    ensures
        value_awaited(old(cell)@, final(cell)@, thread, r),
        s.0@ == old(other)@.id,
        consumer_gone(old(other)@, final(other)@, s.1),
{
    old(cell).lemma_wf();
    Core::lemma_handle(old(cell)@.id);
    old(other).lemma_wf();
}

/// An iterator that goes on with a head gives its value and holds on to the rest, and is over at the end
/// of the stream. The handle that it had comes back.
pub proof fn law_iterator_goes_on<T, E>(
    iter: &mut StreamIter<T, E>,
    head: Head<T, E>,
    r: (Core, Option<T>),
    stream: Stream<T, E>,
    fresh: StreamIter<T, E>,
)
    requires
        old(iter).held() is Some,
        call_ensures(StreamIter::<T, E>::next, (iter, head), r),
        call_ensures(Stream::<T, E>::iter, (stream,), fresh),
    ensures
        old(iter).held() == Some(r.0@),
        head matches Some(h) ==> r.1 == Some(h.0) && final(iter).held() == h.1.held(),
        head is None ==> r.1 is None && final(iter).held() is None,
        fresh.held() == stream.held(),
{
}

/// The producer of a future that completes it provides just that value.
pub proof fn law_complete_provides_a_value<T, E, C, D, K>(
    end: Complete<T, E>,
    cell: &mut CoreInner<T, E, C, D, K>,
    val: T,
    r: (Core, Action<T, E, C, D, K>),
)
    requires
        old(cell).wf(),
        open_to_the_producer(old(cell)@),
        call_ensures(Complete::<T, E>::complete::<C, D, K>, (end, cell, val), r),
    ensures
        r.0@ == old(cell)@.id,
        value_provided(old(cell)@, final(cell)@, Ok(val), r.1),
{
    old(cell).lemma_wf();
    Core::lemma_handle(old(cell)@.id);
}

/// The producer of a future that fails provides its error.
pub proof fn law_complete_provides_an_error<T, E, C, D, K>(
    end: Complete<T, E>,
    cell: &mut CoreInner<T, E, C, D, K>,
    err: E,
    r: (Core, Action<T, E, C, D, K>),
)
    requires
        old(cell).wf(),
        open_to_the_producer(old(cell)@),
        call_ensures(Complete::<T, E>::fail::<C, D, K>, (end, cell, err), r),
    ensures
        r.0@ == old(cell)@.id,
        value_provided(old(cell)@, final(cell)@, Err(AsyncError::ExecutionError(err)), r.1),
{
    old(cell).lemma_wf();
    Core::lemma_handle(old(cell)@.id);
}

/// The producer of a future that goes without a value leaves it canceled.
pub proof fn law_complete_goes_without_a_value<T, E, C, D, K>(
    end: Complete<T, E>,
    cell: &mut CoreInner<T, E, C, D, K>,
    r: (Core, Action<T, E, C, D, K>),
)
    requires
        old(cell).wf(),
        open_to_the_producer(old(cell)@),
        call_ensures(Complete::<T, E>::discard::<C, D, K>, (end, cell), r),
    ensures
        r.0@ == old(cell)@.id,
        value_provided(old(cell)@, final(cell)@, Err(AsyncError::CancellationError), r.1),
{
    old(cell).lemma_wf();
    Core::lemma_handle(old(cell)@.id);
}

/// The producer of a future that settles it provides just that outcome.
pub proof fn law_complete_provides_an_outcome<T, E, C, D, K>(
    end: Complete<T, E>,
    cell: &mut CoreInner<T, E, C, D, K>,
    res: AsyncResult<T, E>,
    r: (Core, Action<T, E, C, D, K>),
)
    requires
        old(cell).wf(),
        open_to_the_producer(old(cell)@),
        call_ensures(Complete::<T, E>::settle::<C, D, K>, (end, cell, res), r),
    ensures
        r.0@ == old(cell)@.id,
        value_provided(old(cell)@, final(cell)@, res, r.1),
{
    old(cell).lemma_wf();
    Core::lemma_handle(old(cell)@.id);
}

/// A sender that fails ends the stream with its error.
pub proof fn law_sender_fails<T, E, C, D, K>(
    end: Sender<T, E>,
    cell: &mut CoreInner<Head<T, E>, E, C, D, K>,
    err: E,
    r: (Core, Action<Head<T, E>, E, C, D, K>),
)
    requires
        old(cell).wf(),
        open_to_the_producer(old(cell)@),
        call_ensures(Sender::<T, E>::fail::<C, D, K>, (end, cell, err), r),
    ensures
        r.0@ == old(cell)@.id,
        value_provided(old(cell)@, final(cell)@, Err(AsyncError::ExecutionError(err)), r.1),
{
    old(cell).lemma_wf();
    Core::lemma_handle(old(cell)@.id);
}

/// A sender that ends the stream with an error provides just that.
pub proof fn law_sender_ends_with_an_error<T, E, C, D, K>(
    end: Sender<T, E>,
    cell: &mut CoreInner<Head<T, E>, E, C, D, K>,
    err: AsyncError<E>,
    r: (Core, Action<Head<T, E>, E, C, D, K>),
)
    requires
        old(cell).wf(),
        open_to_the_producer(old(cell)@),
        call_ensures(Sender::<T, E>::end_with::<C, D, K>, (end, cell, err), r),
    ensures
        r.0@ == old(cell)@.id,
        value_provided(old(cell)@, final(cell)@, Err(err), r.1),
{
    old(cell).lemma_wf();
    Core::lemma_handle(old(cell)@.id);
}

/// A sender that is done provides the end of the stream.
pub proof fn law_sender_is_done<T, E, C, D, K>(
    end: Sender<T, E>,
    cell: &mut CoreInner<Head<T, E>, E, C, D, K>,
    r: (Core, Action<Head<T, E>, E, C, D, K>),
)
    requires
        old(cell).wf(),
        open_to_the_producer(old(cell)@),
        call_ensures(Sender::<T, E>::done::<C, D, K>, (end, cell), r),
    ensures
        r.0@ == old(cell)@.id,
        value_provided(old(cell)@, final(cell)@, Ok(None), r.1),
{
    old(cell).lemma_wf();
    Core::lemma_handle(old(cell)@.id);
}

/// A sender that sends a value provides it with the rest of the stream, for which one handle more is
/// counted, and is busy from then on.
pub proof fn law_sender_sends_a_value<T, E, C, D, K>(
    end: Sender<T, E>,
    cell: &mut CoreInner<Head<T, E>, E, C, D, K>,
    val: T,
    r: (BusySender<T, E>, Action<Head<T, E>, E, C, D, K>),
)
    requires
        old(cell).wf(),
        open_to_the_producer(old(cell)@),
        call_ensures(Sender::<T, E>::send::<C, D, K>, (end, cell, val), r),
    ensures
        r.0.held() == Some(old(cell)@.id),
        exists|rest: Stream<T, E>| #![trigger rest.held()]
            rest.held() == Some(old(cell)@.id) && value_provided(
                old(cell)@.one_more(),
                final(cell)@,
                Ok(Some((val, rest))),
                r.1,
            ),
        final(cell)@.state.refs == old(cell)@.state.refs + 1,
{
    old(cell).lemma_wf();
    Core::lemma_handle(old(cell)@.id);
    let rest = choose|rest: Stream<T, E>|
        {
            &&& rest.held() == Some(old(cell)@.id)
            &&& (final(cell)@, r.1) == #[trigger] old(cell)@.one_more().completed(
                Ok(Some((val, rest))),
            )
        };
    assert(rest.held() == Some(old(cell)@.id));
}

/// The producer of a future that asks for interest is told of the consumer.
pub proof fn law_complete_asks_for_interest<T, E, C, D, K>(
    end: Complete<T, E>,
    cell: &mut CoreInner<T, E, C, D, K>,
    g: D,
    r: (Core, Action<T, E, C, D, K>),
)
    requires
        old(cell).wf(),
        old(cell)@.producer is None,
        !(old(cell)@.val is Some && old(cell)@.consumer is Some),
        call_ensures(Complete::<T, E>::receive::<C, D, K>, (end, cell, g), r),
    ensures
        r.0@ == old(cell)@.id,
        interest_asked_for(old(cell)@, final(cell)@, g, r.1),
{
    old(cell).lemma_wf();
    Core::lemma_handle(old(cell)@.id);
}

/// A sender that asks for interest is told of the consumer.
pub proof fn law_sender_asks_for_interest<T, E, C, D, K>(
    end: Sender<T, E>,
    cell: &mut CoreInner<Head<T, E>, E, C, D, K>,
    g: D,
    r: (Core, Action<Head<T, E>, E, C, D, K>),
)
    requires
        old(cell).wf(),
        old(cell)@.producer is None,
        !(old(cell)@.val is Some && old(cell)@.consumer is Some),
        call_ensures(Sender::<T, E>::receive::<C, D, K>, (end, cell, g), r),
    ensures
        r.0@ == old(cell)@.id,
        interest_asked_for(old(cell)@, final(cell)@, g, r.1),
{
    old(cell).lemma_wf();
    Core::lemma_handle(old(cell)@.id);
}

/// A busy sender that asks for interest in the next value is told of the consumer.
pub proof fn law_busy_sender_asks_for_interest<T, E, C, D, K>(
    end: BusySender<T, E>,
    cell: &mut CoreInner<Head<T, E>, E, C, D, K>,
    g: D,
    r: (Core, Action<Head<T, E>, E, C, D, K>),
)
    requires
        old(cell).wf(),
        old(cell)@.producer is None,
        !(old(cell)@.val is Some && old(cell)@.consumer is Some),
        call_ensures(BusySender::<T, E>::receive::<C, D, K>, (end, cell, g), r),
    ensures
        r.0@ == old(cell)@.id,
        interest_asked_for(old(cell)@, final(cell)@, g, r.1),
{
    old(cell).lemma_wf();
    Core::lemma_handle(old(cell)@.id);
}

/// A busy sender that is given up has its callback told of the consumer as one that asks.
pub proof fn law_busy_sender_is_given_up<T, E, C, D, K>(
    end: BusySender<T, E>,
    cell: &mut CoreInner<Head<T, E>, E, C, D, K>,
    g: D,
    r: (Core, Action<Head<T, E>, E, C, D, K>),
)
    requires
        old(cell).wf(),
        old(cell)@.producer is None,
        !(old(cell)@.val is Some && old(cell)@.consumer is Some),
        call_ensures(BusySender::<T, E>::discard::<C, D, K>, (end, cell, g), r),
    ensures
        r.0@ == old(cell)@.id,
        interest_asked_for(old(cell)@, final(cell)@, g, r.1),
{
    old(cell).lemma_wf();
    Core::lemma_handle(old(cell)@.id);
}

/// What is ready with a callback asks for interest, and has nothing to take back.
pub proof fn law_sender_is_ready_with_a_callback<T, E, C, D, K>(
    end: Sender<T, E>,
    cell: &mut CoreInner<Head<T, E>, E, C, D, K>,
    g: D,
    r: (Receipt<Sender<T, E>>, Core, Action<Head<T, E>, E, C, D, K>),
)
    requires
        old(cell).wf(),
        old(cell)@.producer is None,
        !(old(cell)@.val is Some && old(cell)@.consumer is Some),
        call_ensures(Sender::<T, E>::ready::<C, D, K>, (end, cell, g), r),
    ensures
        r.0@.0 is None,
        r.1@ == old(cell)@.id,
        interest_asked_for(old(cell)@, final(cell)@, g, r.2),
{
    old(cell).lemma_wf();
    Core::lemma_handle(old(cell)@.id);
}

/// One that looks for the consumer gets a sender where it may go on, the news where the consumer is
/// gone, and otherwise comes back.
pub proof fn law_sender_looks_for_interest<T, E, C, D, K>(
    end: Sender<T, E>,
    cell: &mut CoreInner<Head<T, E>, E, C, D, K>,
    r: Result<(Core, AsyncResult<Sender<T, E>, ()>), Sender<T, E>>,
    ready: bool,
    failed: bool,
)
    requires
        old(cell).wf(),
        end.held() == Some(old(cell)@.id),
        call_ensures(Sender::<T, E>::poll::<C, D, K>, (end, cell), r),
        call_ensures(Sender::<T, E>::is_ready::<C, D, K>, (&end, &*old(cell)), ready),
        call_ensures(Sender::<T, E>::is_err::<C, D, K>, (&end, &*old(cell)), failed),
    ensures
        r matches Ok(told) ==> told.0@ == old(cell)@.id && match told.1 {
            Ok(s) => s.held() == Some(old(cell)@.id) && producer_learns(
                old(cell)@,
                final(cell)@,
                Some(Ok(Core::handle(old(cell)@.id))),
            ),
            Err(e) => producer_learns(old(cell)@, final(cell)@, Some(Err(e))),
        },
        r matches Err(back) ==> back.held() == end.held() && final(cell)@ == old(cell)@ && producer_learns(old(cell)@, final(cell)@, None),
        ready <==> r is Ok,
        failed <==> (r matches Ok(told) && told.1 is Err),
{
    old(cell).lemma_wf();
    Core::lemma_handle(old(cell)@.id);
}

/// What is ready with a callback asks for interest, and has nothing to take back.
pub proof fn law_busy_sender_is_ready_with_a_callback<T, E, C, D, K>(
    end: BusySender<T, E>,
    cell: &mut CoreInner<Head<T, E>, E, C, D, K>,
    g: D,
    r: (Receipt<BusySender<T, E>>, Core, Action<Head<T, E>, E, C, D, K>),
)
    requires
        old(cell).wf(),
        old(cell)@.producer is None,
        !(old(cell)@.val is Some && old(cell)@.consumer is Some),
        call_ensures(BusySender::<T, E>::ready::<C, D, K>, (end, cell, g), r),
    ensures
        r.0@.0 is None,
        r.1@ == old(cell)@.id,
        interest_asked_for(old(cell)@, final(cell)@, g, r.2),
{
    old(cell).lemma_wf();
    Core::lemma_handle(old(cell)@.id);
}

/// One that looks for the consumer gets a sender where it may go on, the news where the consumer is
/// gone, and otherwise comes back.
pub proof fn law_busy_sender_looks_for_interest<T, E, C, D, K>(
    end: BusySender<T, E>,
    cell: &mut CoreInner<Head<T, E>, E, C, D, K>,
    r: Result<(Core, AsyncResult<Sender<T, E>, ()>), BusySender<T, E>>,
    ready: bool,
    failed: bool,
)
    requires
        old(cell).wf(),
        end.held() == Some(old(cell)@.id),
        call_ensures(BusySender::<T, E>::poll::<C, D, K>, (end, cell), r),
        call_ensures(BusySender::<T, E>::is_ready::<C, D, K>, (&end, &*old(cell)), ready),
        call_ensures(BusySender::<T, E>::is_err::<C, D, K>, (&end, &*old(cell)), failed),
    ensures
        r matches Ok(told) ==> told.0@ == old(cell)@.id && match told.1 {
            Ok(s) => s.held() == Some(old(cell)@.id) && producer_learns(
                old(cell)@,
                final(cell)@,
                Some(Ok(Core::handle(old(cell)@.id))),
            ),
            Err(e) => producer_learns(old(cell)@, final(cell)@, Some(Err(e))),
        },
        r matches Err(back) ==> back.held() == end.held() && final(cell)@ == old(cell)@ && producer_learns(old(cell)@, final(cell)@, None),
        ready <==> r is Ok,
        failed <==> (r matches Ok(told) && told.1 is Err),
{
    old(cell).lemma_wf();
    Core::lemma_handle(old(cell)@.id);
}

/// The producer of a future that waits for interest with a thread learns of the consumer, or its thread
/// is noted.
pub proof fn law_complete_waits_for_interest<T, E, C, D, K>(
    end: Complete<T, E>,
    cell: &mut CoreInner<T, E, C, D, K>,
    thread: K,
    r: (Core, Option<AsyncResult<Complete<T, E>, ()>>),
)
    requires
        old(cell).wf(),
        call_ensures(Complete::<T, E>::wait::<C, D, K>, (end, cell, thread), r),
    ensures
        r.0@ == old(cell)@.id,
        match r.1 {
            Some(Ok(c)) => c.held() == Some(old(cell)@.id) && producer_learns(
                old(cell)@,
                final(cell)@,
                Some(Ok(Core::handle(old(cell)@.id))),
            ),
            Some(Err(e)) => producer_learns(old(cell)@, final(cell)@, Some(Err(e))),
            None => producer_learns(old(cell)@, final(cell)@, None) && final(cell)@.producer
                == Some(WaitStrategy::<D, K>::Parked(thread)),
        },
{
    old(cell).lemma_wf();
    Core::lemma_handle(old(cell)@.id);
}

/// The callback of a sender that was given up ends the stream where it got a handle, and does nothing
/// where the consumer is gone.
pub proof fn law_given_up_sender_ends_the_stream<T, E, C, D, K>(
    told: AsyncResult<Core, ()>,
    cell: &mut CoreInner<Head<T, E>, E, C, D, K>,
    r: Option<(Core, Action<Head<T, E>, E, C, D, K>)>,
)
    requires
        old(cell).wf(),
        told is Ok ==> open_to_the_producer(old(cell)@),
        call_ensures(BusySender::<T, E>::end::<C, D, K>, (told, cell), r),
    ensures
        r is Some <==> told is Ok,
        r matches Some(owed) ==> owed.0@ == old(cell)@.id && value_provided(old(cell)@, final(cell)@, Ok(None), owed.1),
        r is None ==> final(cell)@ == old(cell)@,
{
    old(cell).lemma_wf();
    Core::lemma_handle(old(cell)@.id);
}

/// An interest in the head of a stream is taken back by its receipt: where the callback has not been
/// started the stream and the callback come back and the core is as it was. A callback that was called at
/// once cannot be taken back.
pub proof fn law_stream_takes_its_interest_back<T, E, C, D, K>(
    end: Stream<T, E>,
    cell: &mut CoreInner<Head<T, E>, E, C, D, K>,
    f: C,
    r: (Receipt<Stream<T, E>>, Option<Core>, Action<Head<T, E>, E, C, D, K>),
    later: &mut CoreInner<Head<T, E>, E, C, D, K>,
    s: (Option<(Stream<T, E>, C)>, Option<Core>),
)
    requires
        old(cell).wf(),
        open_to_the_consumer(old(cell)@),
        !(old(cell)@.val is Some && old(cell)@.producer is Some && old(cell)@.state.consuming),
        call_ensures(Stream::<T, E>::ready::<C, D, K>, (end, cell, f), r),
        *old(later) == *final(cell),
        call_ensures(Receipt::<Stream<T, E>>::cancel::<C, D, K>, (r.0, later), s),
    ensures
        value_asked_for(old(cell)@, final(cell)@, f, r.2),
        r.2 is Consume ==> (r.1 matches Some(core) && core@ == old(cell)@.id) && s.0 is None && s.1 is None && final(later)@ == final(cell)@,
        !(r.2 is Consume) ==> {
            &&& r.1 is None
            &&& s.1 is None
            &&& s.0 matches Some(back) && back.0.held() == Some(old(cell)@.id) && back.1 == f
            &&& final(later)@.consumer is None
            &&& final(later)@.val == old(cell)@.val
            &&& final(later)@.producer == final(cell)@.producer
            &&& r.2 is Idle ==> final(later)@ == old(cell)@
        },
{
    old(cell).lemma_wf();
    Core::lemma_handle(old(cell)@.id);
}

/// A new future and its producer, and a new stream and its sender, share an empty core with two handles.
/// A future that is made of an outcome holds just that.
pub proof fn law_new_ends_belong_to_their_core<T, E, C, D, K>(
    p: (CoreInner<T, E, C, D, K>, Future<T, E>, Complete<T, E>),
    q: (CoreInner<Head<T, E>, E, C, D, K>, Sender<T, E>, Stream<T, E>),
    val: T,
    of: (CoreInner<T, E, C, D, K>, Future<T, E>),
    err: E,
    error: (CoreInner<T, E, C, D, K>, Future<T, E>),
    canceled: (CoreInner<T, E, C, D, K>, Future<T, E>),
    g: D,
    lazy: (CoreInner<T, E, C, D, K>, Future<T, E>, Core),
)
    requires
        call_ensures(Future::<T, E>::pair::<C, D, K>, (), p),
        call_ensures(Stream::<T, E>::pair::<C, D, K>, (), q),
        call_ensures(Future::<T, E>::of::<C, D, K>, (val,), of),
        call_ensures(Future::<T, E>::error::<C, D, K>, (err,), error),
        call_ensures(Future::<T, E>::canceled::<C, D, K>, (), canceled),
        call_ensures(Future::<T, E>::lazy::<C, D, K>, (g,), lazy),
    ensures
        p.1.held() == Some(p.0@.id) && p.2.held() == Some(p.0@.id),
        p.0@.val is None && p.0@.consumer is None && p.0@.producer is None && p.0@.state.refs == 2,
        p.0@.state.lifecycle is New && !p.0@.state.consuming && !p.0@.state.producing,
        q.1.held() == Some(q.0@.id) && q.2.held() == Some(q.0@.id),
        q.0@.val is None && q.0@.consumer is None && q.0@.producer is None && q.0@.state.refs == 2,
        q.0@.state.lifecycle is New && !q.0@.state.consuming && !q.0@.state.producing,
        of.0@.val == Some(Ok::<T, AsyncError<E>>(val)) && of.1.held() == Some(of.0@.id),
        error.0@.val == Some(Err::<T, _>(AsyncError::ExecutionError(err))) && error.1.held() == Some(error.0@.id),
        canceled.0@.val == Some(Err::<T, _>(AsyncError::<E>::CancellationError)) && canceled.1.held() == Some(canceled.0@.id),
        of.0@.state.refs == 1 && error.0@.state.refs == 1 && canceled.0@.state.refs == 1,
        of.0@.state.lifecycle is Ready && error.0@.state.lifecycle is Ready && canceled.0@.state.lifecycle is Ready,
        lazy.0@.producer == Some(WaitStrategy::<D, K>::Callback(g)) && lazy.0@.val is None && lazy.0@.consumer is None,
        lazy.0@.state.lifecycle is ProducerWait && lazy.0@.state.refs == 2 && lazy.1.held() == Some(lazy.0@.id) && lazy.2@ == lazy.0@.id,
{
}

/// A future gives just the outcome with which it was settled, whether its consumer waits for it with a
/// thread after that, or has asked for it by a callback before.
pub proof fn law_future_gives_what_it_was_completed_with<T, E, C, D, K>(
    p: (CoreInner<T, E, C, D, K>, Future<T, E>, Complete<T, E>),
    res: AsyncResult<T, E>,
    c1: &mut CoreInner<T, E, C, D, K>,
    settled: (Core, Action<T, E, C, D, K>),
    c2: &mut CoreInner<T, E, C, D, K>,
    thread: K,
    got: (Core, Option<AsyncResult<T, E>>, Action<T, E, C, D, K>),
    c3: &mut CoreInner<T, E, C, D, K>,
    f: C,
    asked: (Core, Action<T, E, C, D, K>),
    c4: &mut CoreInner<T, E, C, D, K>,
    called: (Core, Action<T, E, C, D, K>),
)
    requires
        call_ensures(Future::<T, E>::pair::<C, D, K>, (), p),
        *old(c1) == p.0,
        call_ensures(Complete::<T, E>::settle::<C, D, K>, (p.2, c1, res), settled),
        *old(c2) == *final(c1),
        call_ensures(Future::<T, E>::wait::<C, D, K>, (p.1, c2, thread), got),
        *old(c3) == p.0,
        call_ensures(Future::<T, E>::receive::<C, D, K>, (p.1, c3, f), asked),
        *old(c4) == *final(c3),
        call_ensures(Complete::<T, E>::settle::<C, D, K>, (p.2, c4, res), called),
    ensures
        settled.1 is Idle,
        got.1 == Some(res),
        asked.1 is Idle,
        called.1 == Action::<T, E, C, D, K>::Consume(f, res),
{
}

/// A stream gives just the value that was sent, with a rest that belongs to the same core, whether its
/// consumer waits for it with a thread after that, or has asked for it by a callback before.
pub proof fn law_stream_gives_what_was_sent<T, E, C, D, K>(
    p: (CoreInner<Head<T, E>, E, C, D, K>, Sender<T, E>, Stream<T, E>),
    val: T,
    c1: &mut CoreInner<Head<T, E>, E, C, D, K>,
    sent: (BusySender<T, E>, Action<Head<T, E>, E, C, D, K>),
    c2: &mut CoreInner<Head<T, E>, E, C, D, K>,
    thread: K,
    got: (Core, Option<AsyncResult<Head<T, E>, E>>, Action<Head<T, E>, E, C, D, K>),
    c3: &mut CoreInner<Head<T, E>, E, C, D, K>,
    f: C,
    asked: (Core, Action<Head<T, E>, E, C, D, K>),
    c4: &mut CoreInner<Head<T, E>, E, C, D, K>,
    called: (BusySender<T, E>, Action<Head<T, E>, E, C, D, K>),
)
    requires
        call_ensures(Stream::<T, E>::pair::<C, D, K>, (), p),
        *old(c1) == p.0,
        call_ensures(Sender::<T, E>::send::<C, D, K>, (p.1, c1, val), sent),
        *old(c2) == *final(c1),
        call_ensures(Stream::<T, E>::wait::<C, D, K>, (p.2, c2, thread), got),
        *old(c3) == p.0,
        call_ensures(Stream::<T, E>::receive::<C, D, K>, (p.2, c3, f), asked),
        *old(c4) == *final(c3),
        call_ensures(Sender::<T, E>::send::<C, D, K>, (p.1, c4, val), called),
    ensures
        sent.1 is Idle,
        got.1 matches Some(Ok(Some(h))) && h.0 == val && h.1.held() == p.2.held(),
        asked.1 is Idle,
        called.1 matches Action::Consume(g, Ok(Some(h))) && g == f && h.0 == val && h.1.held() == p.2.held(),
{
}

/// Each end is an end of the core that its handle belongs to, and a future of a head goes on as the
/// stream of the same core.
pub proof fn law_ends_belong_to_their_core<T, E>(
    core: Core,
    complete: Complete<T, E>,
    stream: Stream<T, E>,
    sender: Sender<T, E>,
    busy: BusySender<T, E>,
    future: Future<Head<T, E>, E>,
    behind: Stream<T, E>,
)
    requires
        call_ensures(Complete::<T, E>::from_core, (core,), complete),
        call_ensures(Stream::<T, E>::from_core, (core,), stream),
        call_ensures(Sender::<T, E>::from_core, (core,), sender),
        call_ensures(BusySender::<T, E>::from_core, (core,), busy),
        call_ensures(Future::<Head<T, E>, E>::as_stream, (future,), behind),
    ensures
        complete.held() == Some(core@),
        stream.held() == Some(core@),
        sender.held() == Some(core@),
        busy.held() == Some(core@),
        behind.held() == future.held(),
{
}

/// A receipt gives its handle and its count again, and one of an interest that cannot be taken back
/// has no handle.
pub proof fn law_receipt_keeps_its_parts<A>(
    core: Core,
    count: u64,
    some: Receipt<A>,
    none: Receipt<A>,
    kept: (Option<Core>, u64),
    nothing: (Option<Core>, u64),
)
    requires
        call_ensures(new::<A>, (core, count), some),
        call_ensures(self::none::<A>, (), none),
        call_ensures(parts::<A>, (some,), kept),
        call_ensures(parts::<A>, (none,), nothing),
    ensures
        kept == (Some(core), count),
        nothing.0 is None,
{
}

} // verus!
