//! What the operations on a future are for, one by one.
//!
//! The laws speak of the value, of the consumers that are left and those that wait, and of the
//! producer, before and after an operation, and of what it came to.
use super::future::{
    Cancel, Future, FutureError, FutureErrorKind, FutureResult, SyncFuture,
};
use super::val::{
    callbacks, cancelation, cloner, future, Delivery, FutureImpl, FutureVal, FutureView,
    InterestStep, InterestTake, Notice, Phase, Producer, ReceiveStep, TakeStep, WaitStrategy,
};
use vstd::prelude::*;

verus! {

/// What clones the value of a future gives the same value again.
pub open spec fn faithful<T, F>(f: F) -> bool where F: Fn(&FutureResult<T>) -> FutureResult<T> {
    forall|a: &FutureResult<T>, b: FutureResult<T>| #[trigger]
        call_ensures(f, (a,), b) ==> b == *a
}

/// The cell is one of which the cloner, if there is one, is faithful.
pub open spec fn clones_are_faithful<T, F, C, D, K>(c: FutureView<T, F, C, D, K>) -> bool where
    F: Fn(&FutureResult<T>) -> FutureResult<T>,
 {
    c.cloner matches Some(f) ==> faithful::<T, F>(f)
}

/// `v` is what a consumer gets of the value `val`: the value itself, or what the cloner made of
/// it. The last consumer gets the value itself, and so does every one where clones are faithful.
pub open spec fn is_share<T, F, C, D, K>(
    c: FutureView<T, F, C, D, K>,
    left: int,
    val: FutureResult<T>,
    v: FutureResult<T>,
) -> bool where F: Fn(&FutureResult<T>) -> FutureResult<T> {
    &&& v == val || (c.cloner is Some && call_ensures(c.cloner->0, (&val,), v))
    &&& left == 1 ==> v == val
    &&& clones_are_faithful(c) ==> v == val
}

/// The error of a future that all its consumers gave up.
pub open spec fn given_up_error(e: FutureError) -> bool {
    e.kind is CancelationError && e.desc@ == "future was canceled by consumer"@
}

/// The error with which a producer fails that says `desc`.
pub open spec fn failed_error(e: FutureError, desc: Seq<char>) -> bool {
    e.kind is ExecutionError && e.desc@ == desc
}

/// The producer that waits is told that a consumer is interested.
pub open spec fn interest_told<T, F, C, D, K>(
    c: FutureView<T, F, C, D, K>,
    after: FutureView<T, F, C, D, K>,
    n: Notice<T, D, K>,
) -> bool {
    &&& c.state matches Phase::ProducerWait(w)
    &&& w matches WaitStrategy::Callback(d) ==> (n matches Notice::Invoke(f, Ok(p)) && f == d && p@
        == c.id)
    &&& w matches WaitStrategy::Park(k) ==> n == Notice::<T, D, K>::Unpark(k)
    &&& after.state is Pending
    &&& after.id == c.id && after.val == c.val && after.clones == c.clones && after.cloner
        == c.cloner
}

/// One consumer has got its share of the value, and the last one has taken it away.
pub open spec fn one_share_gone<T, F, C, D, K>(
    c: FutureView<T, F, C, D, K>,
    after: FutureView<T, F, C, D, K>,
) -> bool {
    &&& after.clones + 1 == c.clones
    &&& after.val == (if c.clones == 1 {
        None
    } else {
        c.val
    })
    &&& after.id == c.id && after.state == c.state && after.cloner == c.cloner
}

/// `w` has joined those that wait for the value.
pub open spec fn joined<T, F, C, D, K>(
    c: FutureView<T, F, C, D, K>,
    after: FutureView<T, F, C, D, K>,
    w: WaitStrategy<C, K>,
) -> bool {
    &&& c.val is None
    &&& match c.state {
        Phase::Pending => after.state == Phase::<C, D, K>::ConsumerWait(seq![w]),
        Phase::ConsumerWait(ws) => after.state == Phase::<C, D, K>::ConsumerWait(ws.push(w)),
        _ => false,
    }
    &&& after.id == c.id && after.val is None && after.clones == c.clones && after.cloner
        == c.cloner
}

/// What a turn of taking the value with `thread` comes to.
pub open spec fn taking_comes_to<T, F, C, D, K>(
    c: FutureView<T, F, C, D, K>,
    after: FutureView<T, F, C, D, K>,
    thread: K,
    step: TakeStep<T, D, K>,
) -> bool where F: Fn(&FutureResult<T>) -> FutureResult<T> {
    &&& step is Ready <==> c.val is Some
    &&& step is Ready <==> c.state is Complete
    &&& step is Notify <==> c.state is ProducerWait
    &&& match step {
        TakeStep::Ready(v) => c.val is Some && is_share(c, c.clones as int, c.val->0, v)
            && one_share_gone(c, after),
        TakeStep::Notify(again, k, n) => again@ == c.id && k == thread && interest_told(
            c,
            after,
            n,
        ),
        TakeStep::Park => joined(c, after, WaitStrategy::Park(thread)),
    }
}

/// Taking the value with a thread. Whatever the number of consumers, each of them gets its share of
/// a value that is there. Where there is none the thread waits, and a producer that waits is told
/// first.
pub proof fn law_every_consumer_takes_its_share<T, F, C, D, K>(
    consumer: FutureVal<T>,
    cell: &mut FutureImpl<T, F, C, D, K>,
    thread: K,
    step: TakeStep<T, D, K>,
) where F: Fn(&FutureResult<T>) -> FutureResult<T>
    requires
        old(cell)@.wf(),
        old(cell)@.has_consumer(),
        call_ensures(FutureVal::<T>::take::<F, C, D, K>, (consumer, cell, thread), step),
    ensures
        taking_comes_to(old(cell)@, final(cell)@, thread, step),
{
}

/// What a turn of having `cb` called with the value comes to.
pub open spec fn receiving_comes_to<T, F, C, D, K>(
    c: FutureView<T, F, C, D, K>,
    after: FutureView<T, F, C, D, K>,
    cb: C,
    step: ReceiveStep<T, C, D, K>,
) -> bool where F: Fn(&FutureResult<T>) -> FutureResult<T> {
    &&& step is Invoke <==> c.val is Some
    &&& step is Invoke <==> c.state is Complete
    &&& step is Notify <==> c.state is ProducerWait
    &&& match step {
        ReceiveStep::Invoke(f, v) => f == cb && c.val is Some && is_share(
            c,
            c.clones as int,
            c.val->0,
            v,
        ) && one_share_gone(c, after),
        ReceiveStep::Notify(again, f, n) => again@ == c.id && f == cb && interest_told(
            c,
            after,
            n,
        ),
        ReceiveStep::Registered(_) => joined(c, after, WaitStrategy::Callback(cb)),
    }
}

/// Having a function called with the value: the same as with a thread, but that the function is
/// called.
pub proof fn law_every_consumer_receives_its_share<T, F, C, D, K>(
    consumer: FutureVal<T>,
    cell: &mut FutureImpl<T, F, C, D, K>,
    cb: C,
    step: ReceiveStep<T, C, D, K>,
) where F: Fn(&FutureResult<T>) -> FutureResult<T>
    requires
        old(cell)@.wf(),
        old(cell)@.has_consumer(),
        call_ensures(FutureVal::<T>::receive::<F, C, D, K>, (consumer, cell, cb), step),
    ensures
        receiving_comes_to(old(cell)@, final(cell)@, cb, step),
{
}

/// A thread that was parked gets its share as soon as the value is there.
pub proof fn law_parked_consumer_takes_its_share<T, F, C, D, K>(
    cell: &mut FutureImpl<T, F, C, D, K>,
    r: Option<FutureResult<T>>,
) where F: Fn(&FutureResult<T>) -> FutureResult<T>
    requires
        old(cell)@.wf(),
        call_ensures(FutureImpl::<T, F, C, D, K>::take_parked, (cell,), r),
    ensures
        r is Some <==> old(cell)@.val is Some,
        r is None ==> final(cell)@ == old(cell)@,
        r matches Some(v) ==> is_share(
            old(cell)@,
            old(cell)@.clones as int,
            old(cell)@.val->0,
            v,
        ) && one_share_gone(old(cell)@, final(cell)@),
{
}

/// The number of those that wait with a function to call.
pub open spec fn callers<C, K>(ws: Seq<WaitStrategy<C, K>>) -> nat {
    ws.filter(|w: WaitStrategy<C, K>| w is Callback).len()
}

/// Those that wait with a function are counted one by one.
proof fn lemma_callers<C, K>(ws: Seq<WaitStrategy<C, K>>)
    ensures
        callbacks(ws) == callers(ws),
        callers(ws) <= ws.len(),
    decreases ws.len(),
{
    reveal(Seq::filter);
    if ws.len() > 0 {
        lemma_callers(ws.drop_last());
    }
}

/// What it comes to that the producer completes a future with `val`. One that was given up stays
/// so. Otherwise the value is there for every consumer: those that wait with a function have it
/// called with their shares, those that wait with a thread are woken and find theirs, in the order
/// in which they came, and the others find theirs when they ask.
pub open spec fn completed_with<T, F, C, D, K>(
    c: FutureView<T, F, C, D, K>,
    after: FutureView<T, F, C, D, K>,
    val: FutureResult<T>,
    r: Seq<Delivery<T, C, K>>,
) -> bool where F: Fn(&FutureResult<T>) -> FutureResult<T> {
    &&& after.id == c.id
    &&& after.cloner == c.cloner
    &&& match c.state {
        Phase::Canceled => after == c && r.len() == 0,
        Phase::ConsumerWait(ws) => {
            &&& after.state is Complete
            &&& r.len() == ws.len()
            &&& after.clones + callers(ws) == c.clones
            &&& after.val == (if after.clones == 0 {
                None
            } else {
                Some(val)
            })
            &&& forall|i: int|
                0 <= i < ws.len() ==> match ws[i] {
                    WaitStrategy::Callback(f) => #[trigger] r[i] matches Delivery::Invoke(g, v) && g
                        == f && is_share(c, c.clones - callers(ws.take(i)), val, v),
                    WaitStrategy::Park(k) => r[i] == Delivery::<T, C, K>::Unpark(k),
                }
        },
        _ => after.state is Complete && after.val == Some(val) && after.clones == c.clones
            && r.len() == 0,
    }
}

/// What the deliveries of a completion come to.
proof fn lemma_completed<T, F, C, D, K>(
    c: FutureView<T, F, C, D, K>,
    val: FutureResult<T>,
    r: Seq<Delivery<T, C, K>>,
) where F: Fn(&FutureResult<T>) -> FutureResult<T>
    requires
        c.wf(),
        c.has_producer(),
        c.deliveries(val, r),
    ensures
        completed_with(c, c.completed(val), val, r),
{
    if let Phase::ConsumerWait(ws) = c.state {
        lemma_callers(ws);
        assert forall|i: int| 0 <= i < ws.len() implies match ws[i] {
            WaitStrategy::Callback(f) => #[trigger] r[i] matches Delivery::Invoke(g, v) && g == f
                && is_share(c, c.clones - callers(ws.take(i)), val, v),
            WaitStrategy::Park(k) => r[i] == Delivery::<T, C, K>::Unpark(k),
        } by {
            assert(c.delivered(val, ws.take(i), ws[i], r[i]));
            lemma_callers(ws.take(i));
        }
    }
}

/// Every consumer gets the value with which the producer completes the future, and an error only
/// where the producer failed: with the error that the producer named, or the one of a producer that
/// canceled or went without completing.
pub proof fn law_producer_completes_for_every_consumer<T, F, C, D, K>(
    producer: Producer<T>,
    c1: &mut FutureImpl<T, F, C, D, K>,
    val: T,
    r1: Vec<Delivery<T, C, K>>,
    c2: &mut FutureImpl<T, F, C, D, K>,
    desc: &'static str,
    r2: Vec<Delivery<T, C, K>>,
    c3: &mut FutureImpl<T, F, C, D, K>,
    r3: Vec<Delivery<T, C, K>>,
    c4: &mut FutureImpl<T, F, C, D, K>,
    r4: Vec<Delivery<T, C, K>>,
) where F: Fn(&FutureResult<T>) -> FutureResult<T>
    requires
        old(c1)@.wf() && old(c1)@.has_producer(),
        call_ensures(Producer::<T>::complete::<F, C, D, K>, (producer, c1, val), r1),
        old(c2)@.wf() && old(c2)@.has_producer(),
        call_ensures(Producer::<T>::fail::<F, C, D, K>, (producer, c2, desc), r2),
        old(c3)@.wf() && old(c3)@.has_producer(),
        call_ensures(Producer::<T>::cancel::<F, C, D, K>, (producer, c3), r3),
        old(c4)@.wf() && old(c4)@.has_producer(),
        call_ensures(Producer::<T>::discard::<F, C, D, K>, (producer, c4), r4),
    ensures
        completed_with(old(c1)@, final(c1)@, Ok(val), r1@),
        exists|e: FutureError| #[trigger]
            completed_with(old(c2)@, final(c2)@, Err(e), r2@) && e.kind is ExecutionError && e.desc
                == desc,
        exists|e: FutureError| #[trigger]
            completed_with(old(c3)@, final(c3)@, Err(e), r3@) && failed_error(
                e,
                "canceled by producer"@,
            ),
        exists|e: FutureError| #[trigger]
            completed_with(old(c4)@, final(c4)@, Err(e), r4@) && failed_error(
                e,
                "producer dropped out of scope without completing"@,
            ),
{
    lemma_completed(old(c1)@, Ok(val), r1@);
    let e2 = FutureError { kind: FutureErrorKind::ExecutionError, desc };
    lemma_completed(old(c2)@, Err(e2), r2@);
    let e3 = FutureError { kind: FutureErrorKind::ExecutionError, desc: "canceled by producer" };
    lemma_completed(old(c3)@, Err(e3), r3@);
    let e4 = FutureError {
        kind: FutureErrorKind::ExecutionError,
        desc: "producer dropped out of scope without completing",
    };
    lemma_completed(old(c4)@, Err(e4), r4@);
    assert(completed_with(old(c2)@, final(c2)@, Err(e2), r2@));
    assert(completed_with(old(c3)@, final(c3)@, Err(e3), r3@));
    assert(completed_with(old(c4)@, final(c4)@, Err(e4), r4@));
}

/// Where clones are faithful every consumer gets just the value with which the future was
/// completed, whatever their number: the functions of those that waited are called with it, and any
/// other consumer, whether it waited with a thread, asks with a function or takes it, gets it too.
pub proof fn law_everybody_gets_the_value<T, F, C, D, K>(
    producer: Producer<T>,
    cell: &mut FutureImpl<T, F, C, D, K>,
    val: T,
    r: Vec<Delivery<T, C, K>>,
    consumer: FutureVal<T>,
    c1: &mut FutureImpl<T, F, C, D, K>,
    thread: K,
    taken: TakeStep<T, D, K>,
    c2: &mut FutureImpl<T, F, C, D, K>,
    cb: C,
    received: ReceiveStep<T, C, D, K>,
    c3: &mut FutureImpl<T, F, C, D, K>,
    found: Option<FutureResult<T>>,
) where F: Fn(&FutureResult<T>) -> FutureResult<T>
    requires
        old(cell)@.wf(),
        old(cell)@.has_producer(),
        !(old(cell)@.state is Canceled),
        clones_are_faithful(old(cell)@),
        call_ensures(Producer::<T>::complete::<F, C, D, K>, (producer, cell, val), r),
        final(cell)@.clones > 0,
        *old(c1) == *final(cell),
        call_ensures(FutureVal::<T>::take::<F, C, D, K>, (consumer, c1, thread), taken),
        *old(c2) == *final(cell),
        call_ensures(FutureVal::<T>::receive::<F, C, D, K>, (consumer, c2, cb), received),
        *old(c3) == *final(cell),
        call_ensures(FutureImpl::<T, F, C, D, K>::take_parked, (c3,), found),
    ensures
        taken == TakeStep::<T, D, K>::Ready(Ok(val)),
        received == ReceiveStep::<T, C, D, K>::Invoke(cb, Ok(val)),
        found == Some(Ok::<T, FutureError>(val)),
        final(c1)@.clones + 1 == final(cell)@.clones,
        final(c1)@.clones > 0 ==> final(c1)@.val == Some(Ok::<T, FutureError>(val)),
        clones_are_faithful(final(c1)@),
        forall|i: int|
            0 <= i < r@.len() && r@[i] is Invoke ==> (#[trigger] r@[i])->Invoke_1 == Ok::<
                T,
                FutureError,
            >(val),
{
    lemma_completed(old(cell)@, Ok(val), r@);
    if let Phase::ConsumerWait(ws) = old(cell)@.state {
        assert forall|i: int| 0 <= i < r@.len() && r@[i] is Invoke implies (
        #[trigger] r@[i])->Invoke_1 == Ok::<T, FutureError>(val) by {
            let d = r@[i];
            assert(ws[i] is Callback);
        }
    }
    law_every_consumer_takes_its_share(consumer, c1, thread, taken);
    law_every_consumer_receives_its_share(consumer, c2, cb, received);
    law_parked_consumer_takes_its_share(c3, found);
}

/// What it comes to that a consumer gives up.
pub open spec fn giving_up_comes_to<T, F, C, D, K>(
    c: FutureView<T, F, C, D, K>,
    after: FutureView<T, F, C, D, K>,
    n: Notice<T, D, K>,
) -> bool where F: Fn(&FutureResult<T>) -> FutureResult<T> {
    &&& after.clones + 1 == c.clones
    &&& after.id == c.id
    &&& after.cloner == c.cloner
    &&& after.state is Canceled <==> c.clones == 1 && !(c.state is Complete)
    &&& !(after.state is Canceled) ==> after.state == c.state && n is Nobody
    &&& c.clones > 1 ==> after.val == c.val
    &&& c.clones == 1 ==> after.val is None
    &&& after.state is Canceled ==> match c.state {
        Phase::ProducerWait(WaitStrategy::Callback(d)) => n matches Notice::Invoke(
            f,
            Err(e),
        ) && f == d && given_up_error(e),
        Phase::ProducerWait(WaitStrategy::Park(k)) => n == Notice::<T, D, K>::Unpark(k),
        _ => n is Nobody,
    }
}

/// A consumer that gives up is one less. A future that is not complete is canceled by the last one
/// only, and then the producer that waits is told, its function with the error and its thread by a
/// wake-up. With the last one a value that is there is dropped.
pub proof fn law_only_the_last_consumer_cancels<T, F, C, D, K>(
    consumer: FutureVal<T>,
    cell: &mut FutureImpl<T, F, C, D, K>,
    n: Notice<T, D, K>,
) where F: Fn(&FutureResult<T>) -> FutureResult<T>
    requires
        old(cell)@.wf(),
        old(cell)@.has_consumer(),
        call_ensures(FutureVal::<T>::cancel::<F, C, D, K>, (consumer, cell), n),
    ensures
        giving_up_comes_to(old(cell)@, final(cell)@, n),
{
}

/// Another consumer of a future is one more, and nothing else changes, but that the first cloner is
/// kept.
pub proof fn law_clone_is_one_consumer_more<T, F, C, D, K>(
    consumer: &FutureVal<T>,
    cell: &mut FutureImpl<T, F, C, D, K>,
    f: F,
    r: FutureVal<T>,
    room: bool,
) where F: Fn(&FutureResult<T>) -> FutureResult<T>
    requires
        old(cell)@.wf(),
        call_ensures(FutureVal::<T>::clone::<F, C, D, K>, (consumer, cell, f), r),
        call_ensures(FutureImpl::<T, F, C, D, K>::can_clone, (&*old(cell),), room),
    ensures
        r@ == old(cell)@.id,
        final(cell)@.id == old(cell)@.id,
        final(cell)@.clones == old(cell)@.clones + 1,
        final(cell)@.val == old(cell)@.val,
        final(cell)@.state == old(cell)@.state,
        old(cell)@.cloner is Some ==> final(cell)@.cloner == old(cell)@.cloner,
        old(cell)@.cloner is None ==> final(cell)@.cloner == Some(f),
        room <==> old(cell)@.clones < usize::MAX,
{
}

/// What the producer learns of the consumers: it goes on as the producer of its future where there
/// are any, and gets the error where all gave up.
pub open spec fn consumers_learned<T, F, C, D, K>(
    c: FutureView<T, F, C, D, K>,
    p: FutureResult<Producer<T>>,
) -> bool {
    match p {
        Ok(producer) => !(c.state is Canceled) && producer@ == c.id,
        Err(e) => c.state is Canceled && given_up_error(e),
    }
}

/// What it comes to that the producer asks for the interest of the consumers with `cb`.
pub open spec fn asking_comes_to<T, F, C, D, K>(
    c: FutureView<T, F, C, D, K>,
    after: FutureView<T, F, C, D, K>,
    cb: D,
    step: InterestStep<T, D>,
) -> bool where F: Fn(&FutureResult<T>) -> FutureResult<T> {
    &&& after.id == c.id && after.val == c.val && after.clones == c.clones && after.cloner
        == c.cloner
    &&& match step {
        InterestStep::Registered(_) => c.state is Pending && after.state == Phase::<
            C,
            D,
            K,
        >::ProducerWait(WaitStrategy::Callback(cb)),
        InterestStep::Invoke(f, p) => !(c.state is Pending) && f == cb && consumers_learned(c, p)
            && after.state == c.state,
    }
}

/// What it comes to that the producer waits for the interest of the consumers with `thread`.
pub open spec fn waiting_comes_to<T, F, C, D, K>(
    c: FutureView<T, F, C, D, K>,
    after: FutureView<T, F, C, D, K>,
    thread: K,
    step: InterestTake<T>,
) -> bool where F: Fn(&FutureResult<T>) -> FutureResult<T> {
    &&& after.id == c.id && after.val == c.val && after.clones == c.clones && after.cloner
        == c.cloner
    &&& match step {
        InterestTake::Park => c.state is Pending && after.state == Phase::<
            C,
            D,
            K,
        >::ProducerWait(WaitStrategy::Park(thread)),
        InterestTake::Ready(p) => !(c.state is Pending) && consumers_learned(c, p) && after.state
            == c.state,
    }
}

/// A producer that asks for the interest of the consumers waits, with a function or a thread, while
/// nobody has asked for the value, and otherwise learns at once how things stand. A thread that
/// waits goes on as soon as it has been told.
pub proof fn law_producer_learns_of_its_consumers<T, F, C, D, K>(
    producer: Producer<T>,
    c1: &mut FutureImpl<T, F, C, D, K>,
    cb: D,
    r1: InterestStep<T, D>,
    c2: &mut FutureImpl<T, F, C, D, K>,
    thread: K,
    r2: InterestTake<T>,
    c3: &mut FutureImpl<T, F, C, D, K>,
    r3: InterestTake<T>,
) where F: Fn(&FutureResult<T>) -> FutureResult<T>
    requires
        old(c1)@.wf() && old(c1)@.has_producer(),
        call_ensures(Producer::<T>::receive::<F, C, D, K>, (producer, c1, cb), r1),
        old(c2)@.wf() && old(c2)@.has_producer(),
        call_ensures(Producer::<T>::take::<F, C, D, K>, (producer, c2, thread), r2),
        old(c3)@.wf(),
        call_ensures(FutureImpl::<T, F, C, D, K>::producer_take_parked, (c3,), r3),
    ensures
        asking_comes_to(old(c1)@, final(c1)@, cb, r1),
        waiting_comes_to(old(c2)@, final(c2)@, thread, r2),
        r3 is Park <==> old(c3)@.state is ProducerWait,
        r3 matches InterestTake::Ready(p) ==> consumers_learned(old(c3)@, p),
        final(c3)@ == old(c3)@,
{
}

/// A new future is pending, with one consumer and one producer that belong to it.
pub proof fn law_new_future_is_pending<T, F, C, D, K>(
    r: (FutureImpl<T, F, C, D, K>, FutureVal<T>, Producer<T>),
    e: FutureError,
) where F: Fn(&FutureResult<T>) -> FutureResult<T>
    requires
        call_ensures(future::<T, F, C, D, K>, (), r),
        call_ensures(cancelation, (), e),
    ensures
        r.1@ == r.0@.id,
        r.2@ == r.0@.id,
        r.0@.val is None,
        r.0@.state is Pending,
        r.0@.clones == 1,
        r.0@.cloner is None,
        given_up_error(e),
{
}

/// The cloner of a type whose clones are equal is faithful: it gives values and errors again.
pub proof fn law_cloner_is_faithful<T: Clone>()
    requires
        forall|a: T, b: T| #[trigger] cloned(a, b) ==> a == b,
    ensures
        forall|a: &FutureResult<T>, b: FutureResult<T>| #[trigger]
            call_ensures(cloner::<T>, (a,), b) ==> b == *a,
{
}

/// A consumer that is taken for any side of a future does what a consumer does.
pub proof fn law_consumer_is_a_side_of_its_future<T, F, C, D, K>(
    consumer: FutureVal<T>,
    c1: &mut FutureImpl<T, F, C, D, K>,
    cb: C,
    r1: ReceiveStep<T, C, D, K>,
    c2: &mut FutureImpl<T, F, C, D, K>,
    thread: K,
    r2: TakeStep<T, D, K>,
    c3: &mut FutureImpl<T, F, C, D, K>,
    r3: Notice<T, D, K>,
) where F: Fn(&FutureResult<T>) -> FutureResult<T>
    requires
        old(c1)@.wf() && old(c1)@.has_consumer(),
        <FutureVal<T> as Future<FutureImpl<T, F, C, D, K>>>::received(
            &consumer,
            *old(c1),
            cb,
            *final(c1),
            r1,
        ),
        old(c2)@.wf() && old(c2)@.has_consumer(),
        <FutureVal<T> as SyncFuture<FutureImpl<T, F, C, D, K>>>::took(
            &consumer,
            *old(c2),
            thread,
            *final(c2),
            r2,
        ),
        old(c3)@.wf() && old(c3)@.has_consumer(),
        call_ensures(
            <FutureVal<T> as Cancel<FutureImpl<T, F, C, D, K>>>::cancel,
            (consumer, c3),
            r3,
        ),
    ensures
        receiving_comes_to(old(c1)@, final(c1)@, cb, r1),
        taking_comes_to(old(c2)@, final(c2)@, thread, r2),
        giving_up_comes_to(old(c3)@, final(c3)@, r3),
{
}

/// A producer that is taken for any side of a future does what a producer does.
pub proof fn law_producer_is_a_side_of_its_future<T, F, C, D, K>(
    producer: Producer<T>,
    c1: &mut FutureImpl<T, F, C, D, K>,
    cb: D,
    r1: InterestStep<T, D>,
    c2: &mut FutureImpl<T, F, C, D, K>,
    thread: K,
    r2: InterestTake<T>,
    c3: &mut FutureImpl<T, F, C, D, K>,
    r3: Vec<Delivery<T, C, K>>,
) where F: Fn(&FutureResult<T>) -> FutureResult<T>
    requires
        old(c1)@.wf() && old(c1)@.has_producer(),
        <Producer<T> as Future<FutureImpl<T, F, C, D, K>>>::received(
            &producer,
            *old(c1),
            cb,
            *final(c1),
            r1,
        ),
        old(c2)@.wf() && old(c2)@.has_producer(),
        <Producer<T> as SyncFuture<FutureImpl<T, F, C, D, K>>>::took(
            &producer,
            *old(c2),
            thread,
            *final(c2),
            r2,
        ),
        old(c3)@.wf() && old(c3)@.has_producer(),
        call_ensures(
            <Producer<T> as Cancel<FutureImpl<T, F, C, D, K>>>::cancel,
            (producer, c3),
            r3,
        ),
    ensures
        asking_comes_to(old(c1)@, final(c1)@, cb, r1),
        waiting_comes_to(old(c2)@, final(c2)@, thread, r2),
        exists|e: FutureError| #[trigger]
            completed_with(old(c3)@, final(c3)@, Err(e), r3@) && failed_error(
                e,
                "canceled by producer"@,
            ),
{
    let e = FutureError { kind: FutureErrorKind::ExecutionError, desc: "canceled by producer" };
    lemma_completed(old(c3)@, Err(e), r3@);
    assert(completed_with(old(c3)@, final(c3)@, Err(e), r3@));
}

/// An error says of itself just one of the two: that the future was given up, or that it failed.
pub proof fn law_errors_say_what_happened(e: FutureError, canceled: bool, failed: bool)
    requires
        call_ensures(FutureError::is_cancelation_error, (&e,), canceled),
        call_ensures(FutureError::is_execution_error, (&e,), failed),
    ensures
        canceled <==> !failed,
        given_up_error(e) ==> canceled,
        failed_error(e, e.desc@) <==> failed,
{
}

} // verus!
