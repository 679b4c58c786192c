//! What holds of a future over several operations.
use super::future::FutureResult;
use super::val::{callbacks, Delivery, FutureView, Notice, Phase, Producer, WaitStrategy};
use vstd::prelude::*;

verus! {

/// Every operation keeps the invariant: a consumer that waits, gets the value or
/// gives up, one that is added, a producer that waits, is told or completes.
pub proof fn law_invariant_is_kept<T, F, C, D, K>(
    v: FutureView<T, F, C, D, K>,
    w: WaitStrategy<C, K>,
    p: WaitStrategy<D, K>,
    f: F,
    val: FutureResult<T>,
) where F: Fn(&FutureResult<T>) -> FutureResult<T>
    requires
        v.wf(),
        forall|x: &FutureResult<T>| #[trigger] call_requires(f, (x,)),
    ensures
        v.val is Some ==> v.one_less().wf(),
        v.has_consumer() && v.val is None && !(v.state is ProducerWait) ==> v.with_waiter(w).wf(),
        v.has_consumer() ==> v.given_up().wf(),
        v.clones > 0 ==> v.cloned_with(f).wf(),
        v.notified().wf(),
        v.state is Pending ==> v.in_state(Phase::ProducerWait(p)).wf(),
        v.has_producer() ==> v.completed(val).wf(),
{
    if let Phase::ConsumerWait(ws) = v.state {
        lemma_callbacks(ws);
    }
}

/// No more wait with a function than wait.
proof fn lemma_callbacks<C, K>(ws: Seq<WaitStrategy<C, K>>)
    ensures
        callbacks(ws) <= ws.len(),
    decreases ws.len(),
{
    if ws.len() > 0 {
        lemma_callbacks(ws.drop_last());
    }
}

/// A complete future stays complete and a canceled one canceled, whatever the
/// consumers that are left and the producer do.
pub proof fn law_end_is_final<T, F, C, D, K>(v: FutureView<T, F, C, D, K>, f: F, val: FutureResult<T>) where
    F: Fn(&FutureResult<T>) -> FutureResult<T>,

    requires
        v.wf(),
        v.state is Complete || v.state is Canceled,
    ensures
        v.one_less().state == v.state,
        v.given_up().state == v.state,
        v.cloned_with(f).state == v.state,
        v.notified() == v,
        v.has_producer() ==> v.completed(val) == v,
        v.has_consumer() ==> v.val is Some,
{
}

/// Those that wait for the value are only ever joined by others, until the future
/// is complete: nothing else moves the future out of that state.
pub proof fn law_waiting_ends_with_the_value<T, F, C, D, K>(
    v: FutureView<T, F, C, D, K>,
    w: WaitStrategy<C, K>,
    f: F,
    val: FutureResult<T>,
) where F: Fn(&FutureResult<T>) -> FutureResult<T>
    requires
        v.wf(),
        v.state is ConsumerWait,
    ensures
        v.with_waiter(w).state == Phase::<C, D, K>::ConsumerWait(v.state->ConsumerWait_0.push(w)),
        v.has_consumer() ==> v.given_up().state == v.state,
        v.cloned_with(f).state == v.state,
        v.notified() == v,
        v.completed(val).state is Complete,
{
}

/// The only consumer gets the value that the producer gave, whether it asked
/// before the completion or after it.
pub proof fn law_value_arrives<T, F, C, D, K>(
    v: FutureView<T, F, C, D, K>,
    cb: C,
    val: FutureResult<T>,
    early: Seq<Delivery<T, C, K>>,
    late: FutureResult<T>,
) where F: Fn(&FutureResult<T>) -> FutureResult<T>
    requires
        v.wf(),
        v.state is Pending,
        v.clones == 1,
        v.with_waiter(WaitStrategy::Callback(cb)).deliveries(val, early),
        v.completed(val).share(val, late),
    ensures
        early.len() == 1,
        early[0] == Delivery::<T, C, K>::Invoke(cb, val),
        late == val,
        v.with_waiter(WaitStrategy::Callback(cb)).completed(val) == v.completed(val).one_less(),
{
    let ws = seq![WaitStrategy::<C, K>::Callback(cb)];
    assert(ws.take(0) =~= Seq::<WaitStrategy<C, K>>::empty());
    assert(ws.drop_last() =~= Seq::<WaitStrategy<C, K>>::empty());
    assert(callbacks(ws) == 1);
    assert(callbacks(ws.take(0)) == 0);
    assert(v.with_waiter(WaitStrategy::Callback(cb)).delivered(val, ws.take(0), ws[0], early[0]));
}

/// Everybody that waits when the future is completed is served: once, in the
/// order of arrival, by a call of its own function or by waking its own thread,
/// and for each thread that is woken a share of the value is left.
pub proof fn law_every_waiter_is_served<T, F, C, D, K>(
    v: FutureView<T, F, C, D, K>,
    val: FutureResult<T>,
    r: Seq<Delivery<T, C, K>>,
    i: int,
) where F: Fn(&FutureResult<T>) -> FutureResult<T>
    requires
        v.wf(),
        v.state is ConsumerWait,
        v.deliveries(val, r),
        0 <= i < v.waiting(),
    ensures
        r.len() == v.waiting(),
        ({
            let w = v.state->ConsumerWait_0[i];
            &&& w matches WaitStrategy::Callback(c) ==> r[i] is Invoke && r[i]->Invoke_0 == c
            &&& w matches WaitStrategy::Park(k) ==> r[i] == Delivery::<T, C, K>::Unpark(k)
        }),
        v.completed(val).clones == v.clones - callbacks(v.state->ConsumerWait_0),
        v.completed(val).clones >= v.waiting() - callbacks(v.state->ConsumerWait_0),
{
    let ws = v.state->ConsumerWait_0;
    assert(v.delivered(val, ws.take(i), ws[i], r[i]));
    lemma_callbacks(ws);
}

/// Each consumer gets the value once: every share that is taken leaves one
/// consumer less, and the last one takes the value away.
pub proof fn law_one_share_for_each_consumer<T, F, C, D, K>(
    v: FutureView<T, F, C, D, K>,
    share: FutureResult<T>,
) where F: Fn(&FutureResult<T>) -> FutureResult<T>
    requires
        v.wf(),
        v.val is Some,
        v.share(v.val->0, share),
    ensures
        v.one_less().clones + 1 == v.clones,
        v.one_less().val is None <==> v.clones == 1,
        v.clones == 1 ==> share == v.val->0,
        v.clones > 1 ==> v.one_less().val == v.val,
{
}

/// A future is canceled only by the last of its consumers, and then the producer
/// learns of it: at once if it waits, else when it asks.
pub proof fn law_producer_learns_of_the_cancelation<T, F, C, D, K>(
    v: FutureView<T, F, C, D, K>,
    n: Notice<T, D, K>,
    p: FutureResult<Producer<T>>,
) where F: Fn(&FutureResult<T>) -> FutureResult<T>
    requires
        v.wf(),
        v.has_consumer(),
        v.state is Pending || v.state is ProducerWait,
        v.given_up().state is Canceled ==> v.notice(false, n),
        v.given_up().interest(p),
    ensures
        v.given_up().state is Canceled <==> v.clones == 1,
        v.clones == 1 ==> p is Err,
        v.clones > 1 ==> p is Ok,
        v.clones == 1 && v.state is Pending ==> n is Nobody,
        v.clones == 1 && v.state is ProducerWait ==> (n is Unpark || (n is Invoke
            && n->Invoke_1 is Err)),
{
}

/// Giving up one clone leaves the future as it was before the clone was made,
/// except that it can be cloned.
pub proof fn law_clone_then_give_up<T, F, C, D, K>(v: FutureView<T, F, C, D, K>, f: F) where
    F: Fn(&FutureResult<T>) -> FutureResult<T>,

    requires
        v.wf(),
        v.clones > 0,
    ensures
        v.cloned_with(f).given_up().clones == v.clones,
        v.cloned_with(f).given_up().state == v.state,
        v.cloned_with(f).given_up().val == v.val,
{
}

} // verus!
