//! The shared core of a future or a stream.
//!
//! A `CoreInner` holds what the producer and the consumer of one value share:
//! the state word, the wait strategy of either side, and the value. Its
//! operations never run a callback and never block. They return the `Action`
//! that their caller owes once it has left the core: to run a consumer callback
//! and then report `consumer_done`, to run a producer callback and then report
//! `producer_done`, or to wake a thread.
use super::atomic_state::AtomicState;
use super::error::{AsyncError, AsyncResult};
use super::state::{Lifecycle, State, StateView};
use vstd::prelude::*;

verus! {

/// How one side of the core waits: by a callback, or with a parked thread.
#[derive(Debug)]
pub enum WaitStrategy<C, K> {
    Callback(C),
    Parked(K),
}

/// A counted handle to a core. Its view is the identity of the core.
pub struct Core {
    id: Ghost<int>,
}

impl Core {
    /// The identity of the core.
    pub closed spec fn view(&self) -> int {
        self.id@
    }

    /// The handle to the core `id`, as a mathematical value.
    pub closed spec fn handle(id: int) -> Core {
        Core { id: Ghost(id) }
    }

    /// A handle is told by the core that it belongs to.
    pub proof fn lemma_handle(id: int)
        ensures
            Core::handle(id)@ == id,
            forall|core: Core| #[trigger] core@ == id ==> core == Core::handle(id),
    {
    }

    /// Makes a handle to the core `id`.
    pub(crate) fn issue(id: Ghost<int>) -> (r: Core)
        ensures
            r == Core::handle(id@),
            r@ == id@,
    {
        Core { id }
    }
}

/// The identity of a new core, of which nothing is known.
proof fn any_id() -> (id: int) {
    0
}

/// A handle to a core that may have been taken out. Its view is the identity of the
/// core while the handle is there.
pub struct OptionCore {
    slot: Option<Core>,
}

impl OptionCore {
    /// The identity of the core while the handle is there.
    pub closed spec fn view(&self) -> Option<int> {
        match self.slot {
            Some(core) => Some(core@),
            None => None,
        }
    }

    /// The slot that holds the handle `core`.
    pub fn new(core: Core) -> (r: OptionCore)
        ensures
            r@ == Some(core@),
    {
        OptionCore { slot: Some(core) }
    }

    /// Whether the handle is still there.
    pub fn is_some(&self) -> (r: bool)
        ensures
            r == (self@ is Some),
    {
        self.slot.is_some()
    }

    /// The handle.
    pub fn get(&self) -> (r: &Core)
        requires
            self@ is Some,
        ensures
            Some(r@) == self@,
    {
        match &self.slot {
            Some(core) => core,
            None => vstd::pervasive::unreached(),
        }
    }

    /// Takes the handle out.
    pub fn take(&mut self) -> (r: Core)
        requires
            old(self)@ is Some,
        ensures
            Some(r@) == old(self)@,
            final(self)@ is None,
    {
        self.slot.take().unwrap()
    }
}

/// What the caller of an operation owes.
pub enum Action<T, E, C, D, K> {
    /// Nothing.
    Idle,
    /// To run the consumer callback with the value, then to report
    /// `consumer_done`.
    Consume(C, AsyncResult<T, E>),
    /// To run the producer callback with a handle, or with the news that the
    /// consumer canceled, then to report `producer_done`.
    Produce(D, AsyncResult<Core, ()>),
    /// To unpark the thread.
    Unpark(K),
}

/// What a core holds.
pub ghost struct CoreView<T, E, C, D, K> {
    /// The identity of the core, by which its handles are told.
    pub id: int,
    pub state: StateView,
    pub consumer: Option<WaitStrategy<C, K>>,
    pub producer: Option<WaitStrategy<D, K>>,
    pub val: Option<AsyncResult<T, E>>,
}

impl<T, E, C, D, K> CoreView<T, E, C, D, K> {
    /// The slots agree with the lifecycle, a thread never parks inside a
    /// callback, and a callback is put off only while another one runs.
    pub open spec fn wf(self) -> bool {
        &&& self.val is Some <==> self.state.lifecycle.holds_value()
        &&& self.consumer is Some <==> self.state.lifecycle.consumer_pending()
        &&& self.producer is Some <==> self.state.lifecycle.producer_pending()
        &&& self.state.consuming ==> !(self.consumer matches Some(WaitStrategy::Parked(_)))
        &&& self.state.producing ==> !(self.producer matches Some(WaitStrategy::Parked(_)))
        &&& self.state.lifecycle is ConsumerNotify ==> self.state.consuming
        &&& self.state.lifecycle is ProducerNotify ==> self.state.producing
        &&& self.state.lifecycle is ProducerNotifyCanceled ==> self.state.producing
    }

    /// Whether one more handle can be counted.
    pub open spec fn countable(self) -> bool {
        self.state.refs < super::state::max_refs()
    }

    /// The core with one handle more.
    pub open spec fn one_more(self) -> CoreView<T, E, C, D, K> {
        CoreView { state: StateView { refs: self.state.refs + 1, ..self.state }, ..self }
    }

    /// Whether a value can be consumed.
    pub open spec fn ready(self) -> bool {
        self.state.lifecycle is Ready || self.state.lifecycle is ReadyProducerWait
    }

    /// The core in another lifecycle.
    pub open spec fn in_lifecycle(self, lifecycle: Lifecycle) -> CoreView<T, E, C, D, K> {
        CoreView { state: StateView { lifecycle, ..self.state }, ..self }
    }

    /// The core without the wait strategy of the consumer.
    pub open spec fn without_consumer(self) -> CoreView<T, E, C, D, K> {
        CoreView { consumer: None, ..self }
    }

    /// The core without the wait strategy of the producer.
    pub open spec fn without_producer(self) -> CoreView<T, E, C, D, K> {
        CoreView { producer: None, ..self }
    }

    /// The core after the value has been taken out, by a callback or not.
    pub open spec fn consumed(self, callback: bool) -> CoreView<T, E, C, D, K> {
        CoreView {
            state: super::atomic_state::consumed(self.state, callback),
            val: None,
            ..self
        }
    }

    /// What it is to hand the value to the waiting consumer.
    pub open spec fn run_consumer(self) -> (CoreView<T, E, C, D, K>, Action<T, E, C, D, K>) {
        let rest = CoreView { consumer: None, ..self };
        match self.consumer->0 {
            WaitStrategy::Callback(cb) => (rest.consumed(true), Action::Consume(cb, self.val->0)),
            WaitStrategy::Parked(thread) => (rest, Action::Unpark(thread)),
        }
    }

    /// What it is to tell the waiting consumer of the value: put off while a
    /// consumer callback runs.
    pub open spec fn notify_consumer(self) -> (CoreView<T, E, C, D, K>, Action<T, E, C, D, K>) {
        if self.state.consuming {
            (self.in_lifecycle(Lifecycle::ConsumerNotify), Action::Idle)
        } else {
            self.run_consumer()
        }
    }

    /// What the producer is told: it gets a handle, unless the consumer
    /// canceled.
    pub open spec fn producer_result(self) -> (CoreView<T, E, C, D, K>, AsyncResult<Core, ()>) {
        if self.state.lifecycle is Canceled {
            (self, Err(AsyncError::CancellationError))
        } else {
            (self.one_more(), Ok(Core::handle(self.id)))
        }
    }

    /// What it is to start the producer callback `f`.
    pub open spec fn start_producer(self, f: D) -> (
        CoreView<T, E, C, D, K>,
        Action<T, E, C, D, K>,
    ) {
        let running = CoreView {
            state: super::atomic_state::produced(self.state, true),
            ..self
        };
        (running.producer_result().0, Action::Produce(f, running.producer_result().1))
    }

    /// What it is to tell the waiting producer of the consumer.
    pub open spec fn run_producer(self) -> (CoreView<T, E, C, D, K>, Action<T, E, C, D, K>) {
        let rest = CoreView { producer: None, ..self };
        match self.producer->0 {
            WaitStrategy::Callback(cb) => rest.start_producer(cb),
            WaitStrategy::Parked(thread) => (rest, Action::Unpark(thread)),
        }
    }

    /// What it is to tell the producer of the consumer: put off while a producer
    /// callback runs.
    pub open spec fn notify_producer(self) -> (CoreView<T, E, C, D, K>, Action<T, E, C, D, K>) {
        if self.state.producing {
            if self.state.lifecycle is Canceled {
                (self.in_lifecycle(Lifecycle::ProducerNotifyCanceled), Action::Idle)
            } else {
                (self.in_lifecycle(Lifecycle::ProducerNotify), Action::Idle)
            }
        } else {
            self.run_producer()
        }
    }

    /// The lifecycles in which the consumer may start to wait.
    pub open spec fn may_consume(self) -> bool {
        ||| self.state.lifecycle is New
        ||| self.state.lifecycle is ProducerWait
        ||| self.state.lifecycle is Ready
        ||| self.state.lifecycle is ReadyProducerWait && !self.state.consuming
    }

    /// Whether the consumer may wait with a parked thread: the value is there, or no
    /// consumer callback runs from within which it would wait.
    pub open spec fn may_await(self) -> bool {
        self.ready() || (self.may_consume() && !self.state.consuming)
    }

    /// What it is for the consumer to start to wait by `wait`.
    pub open spec fn consumer_waits(self, wait: WaitStrategy<C, K>) -> (
        CoreView<T, E, C, D, K>,
        Action<T, E, C, D, K>,
    ) {
        let waiting = CoreView { consumer: Some(wait), ..self };
        match self.state.lifecycle {
            Lifecycle::New => (waiting.in_lifecycle(Lifecycle::ConsumerWait), Action::Idle),
            Lifecycle::ProducerWait => if self.state.producing {
                (waiting.in_lifecycle(Lifecycle::ProducerNotify), Action::Idle)
            } else {
                waiting.in_lifecycle(Lifecycle::ConsumerWait).notify_producer()
            },
            _ => waiting.notify_consumer(),
        }
    }

    /// What it is for the consumer to ask for the value by the callback `f`.
    pub open spec fn received(self, f: C) -> (CoreView<T, E, C, D, K>, Action<T, E, C, D, K>) {
        if self.ready() && !self.state.consuming {
            (self.consumed(true), Action::Consume(f, self.val->0))
        } else {
            self.consumer_waits(WaitStrategy::Callback(f))
        }
    }

    /// The consumer waits with a callback that has not been started.
    pub open spec fn retractable(self) -> bool {
        self.consumer matches Some(WaitStrategy::Callback(_))
    }

    /// What it is for the consumer to take its callback back.
    pub open spec fn retracted(self) -> (CoreView<T, E, C, D, K>, C) {
        let lifecycle = match self.state.lifecycle {
            Lifecycle::ConsumerNotify => Lifecycle::Ready,
            Lifecycle::ProducerNotify => Lifecycle::ProducerWait,
            _ => Lifecycle::New,
        };
        (self.without_consumer().in_lifecycle(lifecycle), self.consumer->0->Callback_0)
    }

    /// What it is for the consumer callback to return.
    pub open spec fn consumer_returned(self) -> (CoreView<T, E, C, D, K>, Action<T, E, C, D, K>) {
        let rest = CoreView { state: StateView { consuming: false, ..self.state }, ..self };
        if self.state.lifecycle is ConsumerNotify {
            rest.run_consumer()
        } else {
            (rest, Action::Idle)
        }
    }

    /// Whether the producer need not wait.
    pub open spec fn producer_ready(self) -> bool {
        self.state.lifecycle is ConsumerWait || self.ready() || self.state.lifecycle is Canceled
    }

    /// The lifecycles in which the producer may ask for the consumer by a
    /// callback.
    pub open spec fn may_produce(self) -> bool {
        self.state.lifecycle is New || self.state.lifecycle is ConsumerWait
            || self.state.lifecycle is Ready || self.state.lifecycle is Canceled
    }

    /// What it is for the producer to ask for the consumer by the callback `f`.
    pub open spec fn producer_received(self, f: D) -> (
        CoreView<T, E, C, D, K>,
        Action<T, E, C, D, K>,
    ) {
        let waiting = CoreView { producer: Some(WaitStrategy::Callback(f)), ..self };
        match self.state.lifecycle {
            Lifecycle::New => (waiting.in_lifecycle(Lifecycle::ProducerWait), Action::Idle),
            Lifecycle::Ready => (waiting.in_lifecycle(Lifecycle::ReadyProducerWait), Action::Idle),
            _ => if self.state.producing {
                waiting.notify_producer()
            } else {
                self.start_producer(f)
            },
        }
    }

    /// What it is for the producer callback to return.
    pub open spec fn producer_returned(self) -> (CoreView<T, E, C, D, K>, Action<T, E, C, D, K>) {
        let rest = CoreView { state: StateView { producing: false, ..self.state }, ..self };
        if self.state.lifecycle is ProducerNotify || self.state.lifecycle is ProducerNotifyCanceled {
            rest.run_producer()
        } else {
            (rest, Action::Idle)
        }
    }

    /// The lifecycles in which the consumer may cancel.
    pub open spec fn may_cancel(self) -> bool {
        self.state.lifecycle is New || self.state.lifecycle is ProducerWait || self.ready()
    }

    /// What it is for the consumer to cancel: the value is dropped, and a
    /// waiting producer is told.
    pub open spec fn canceled(self) -> (CoreView<T, E, C, D, K>, Action<T, E, C, D, K>) {
        let rest = CoreView { val: None, ..self.in_lifecycle(Lifecycle::Canceled) };
        if self.state.lifecycle.producer_pending() {
            rest.notify_producer()
        } else {
            (rest, Action::Idle)
        }
    }

    /// The lifecycles in which the producer may provide the value.
    pub open spec fn may_complete(self) -> bool {
        self.state.lifecycle is New || self.state.lifecycle is ConsumerWait
            || self.state.lifecycle is Canceled
    }

    /// What it is for the producer to provide the value: it is dropped if the
    /// consumer canceled, handed to the consumer if that waits, and kept
    /// otherwise.
    pub open spec fn completed(self, val: AsyncResult<T, E>) -> (
        CoreView<T, E, C, D, K>,
        Action<T, E, C, D, K>,
    ) {
        let ready = CoreView { val: Some(val), ..self.in_lifecycle(Lifecycle::Ready) };
        match self.state.lifecycle {
            Lifecycle::Canceled => (self, Action::Idle),
            Lifecycle::ConsumerWait => ready.notify_consumer(),
            _ => (ready, Action::Idle),
        }
    }
}

/// Whether the consumer may have read `seen` when the state is `now`: it alone
/// starts and ends its callbacks and takes values out, while the producer may have
/// started to wait, or provided a value, since.
pub open spec fn consumer_saw(seen: StateView, now: StateView) -> bool {
    &&& seen.consuming == now.consuming
    &&& match seen.lifecycle {
        Lifecycle::New => true,
        Lifecycle::ProducerWait => now.lifecycle is ProducerWait,
        Lifecycle::Ready => now.lifecycle is Ready || now.lifecycle is ReadyProducerWait,
        Lifecycle::ReadyProducerWait => now.lifecycle is ReadyProducerWait,
        _ => false,
    }
}

/// Whether the producer may have read `seen` when the state is `now`: it alone
/// starts and ends its callbacks and provides values, while the consumer may have
/// taken the value, started to wait, or canceled, since.
pub open spec fn producer_saw(seen: StateView, now: StateView) -> bool {
    &&& seen.producing == now.producing
    &&& match seen.lifecycle {
        Lifecycle::New => !(now.lifecycle is Ready),
        Lifecycle::Ready => true,
        Lifecycle::ConsumerWait => now.lifecycle is ConsumerWait,
        Lifecycle::Canceled => now.lifecycle is Canceled,
        _ => false,
    }
}

/// The shared core of a future or a stream.
pub struct CoreInner<T, E, C, D, K> {
    state: AtomicState,
    consumer_wait: Option<WaitStrategy<C, K>>,
    producer_wait: Option<WaitStrategy<D, K>>,
    val: Option<AsyncResult<T, E>>,
    requests: u64,
    id: Ghost<int>,
}

impl<T, E, C, D, K> CoreInner<T, E, C, D, K> {
    /// What the core holds.
    pub closed spec fn view(&self) -> CoreView<T, E, C, D, K> {
        CoreView {
            id: self.id@,
            state: self.state@,
            consumer: self.consumer_wait,
            producer: self.producer_wait,
            val: self.val,
        }
    }

    /// How often the consumer has asked for a value by a callback.
    pub closed spec fn requests(&self) -> u64 {
        self.requests
    }

    closed spec fn inv(self) -> bool {
        self.state.wf()
    }

    /// The invariant of a core between two operations.
    pub closed spec fn wf(self) -> bool {
        self.inv() && self@.wf()
    }

    /// What the invariant says of the view.
    pub proof fn lemma_wf(self)
        requires
            self.wf(),
        ensures
            self@.wf(),
    {
    }

    /// A fresh core with one handle.
    pub fn new() -> (r: CoreInner<T, E, C, D, K>)
        ensures
            r.wf(),
            r@ == (CoreView::<T, E, C, D, K> {
                id: r@.id,
                state: StateView {
                    lifecycle: Lifecycle::New,
                    consuming: false,
                    producing: false,
                    refs: 1,
                },
                consumer: None,
                producer: None,
                val: None,
            }),
    {
        let ghost mut id = 0int;
        proof {
            id = any_id();
        }
        CoreInner {
            state: AtomicState::new(),
            consumer_wait: None,
            producer_wait: None,
            val: None,
            requests: 0,
            id: Ghost(id),
        }
    }

    /// A core with one handle that already holds a value.
    pub fn with_value(val: AsyncResult<T, E>) -> (r: CoreInner<T, E, C, D, K>)
        ensures
            r.wf(),
            r@ == (CoreView::<T, E, C, D, K> {
                id: r@.id,
                state: StateView {
                    lifecycle: Lifecycle::Ready,
                    consuming: false,
                    producing: false,
                    refs: 1,
                },
                consumer: None,
                producer: None,
                val: Some(val),
            }),
    {
        let ghost mut id = 0int;
        proof {
            id = any_id();
        }
        CoreInner {
            state: AtomicState::of(Lifecycle::Ready),
            consumer_wait: None,
            producer_wait: None,
            val: Some(val),
            requests: 0,
            id: Ghost(id),
        }
    }

    /// The state of the core.
    pub fn state(&self) -> (r: State)
        requires
            self.wf(),
        ensures
            r.wf(),
            r@ == self@.state,
    {
        self.state.load()
    }

    /// Whether the consumer may start to wait.
    pub fn can_consume(&self) -> (r: bool)
        requires
            self.wf(),
        ensures
            r == self@.may_consume(),
    {
        let curr = self.state.load();
        match curr.lifecycle() {
            Lifecycle::New | Lifecycle::ProducerWait | Lifecycle::Ready => true,
            Lifecycle::ReadyProducerWait => !curr.is_consuming(),
            _ => false,
        }
    }

    /// Whether the consumer may wait with a parked thread.
    pub fn can_await(&self) -> (r: bool)
        requires
            self.wf(),
        ensures
            r == self@.may_await(),
    {
        self.consumer_is_ready() || (self.can_consume() && !self.state.load().is_consuming())
    }

    /// Whether the producer may ask for the consumer by a callback.
    pub fn can_produce(&self) -> (r: bool)
        requires
            self.wf(),
        ensures
            r == self@.may_produce(),
    {
        match self.state.load().lifecycle() {
            Lifecycle::New | Lifecycle::ConsumerWait | Lifecycle::Ready | Lifecycle::Canceled => true,
            _ => false,
        }
    }

    /// Whether the consumer may cancel.
    pub fn can_cancel(&self) -> (r: bool)
        requires
            self.wf(),
        ensures
            r == self@.may_cancel(),
    {
        match self.state.load().lifecycle() {
            Lifecycle::New | Lifecycle::ProducerWait | Lifecycle::Ready
            | Lifecycle::ReadyProducerWait => true,
            _ => false,
        }
    }

    /// Whether the producer may provide the value.
    pub fn can_complete(&self) -> (r: bool)
        requires
            self.wf(),
        ensures
            r == self@.may_complete(),
    {
        match self.state.load().lifecycle() {
            Lifecycle::New | Lifecycle::ConsumerWait | Lifecycle::Canceled => true,
            _ => false,
        }
    }

    /// Whether one more handle can be counted.
    pub fn can_acquire(&self) -> (r: bool)
        requires
            self.wf(),
        ensures
            r == self@.countable(),
    {
        self.state.load().ref_count() < usize::MAX / 64
    }

    /// One more handle to the core.
    pub fn acquire(&mut self) -> (r: Core)
        requires
            old(self)@.countable(),
        ensures
            final(self).requests() == old(self).requests(),
            final(self).wf() == old(self).wf(),
            final(self)@ == old(self)@.one_more(),
            r == Core::handle(old(self)@.id),
            r@ == old(self)@.id,
    {
        self.state.ref_inc();
        Core::issue(Ghost(self.id@))
    }

    /// Gives up one handle, and returns whether it was the last. With the last
    /// one the value and the wait strategies are dropped.
    pub fn release(&mut self, core: Core) -> (r: bool)
        requires
            old(self).wf(),
            old(self)@.state.refs >= 1,
            core@ == old(self)@.id,
        ensures
            final(self).requests() == old(self).requests(),
            r == (old(self)@.state.refs == 1),
            !r ==> final(self).wf() && final(self)@ == (CoreView {
                state: StateView {
                    refs: (old(self)@.state.refs - 1) as nat,
                    ..old(self)@.state
                },
                ..old(self)@
            }),
            r ==> final(self)@ == (CoreView::<T, E, C, D, K> {
                id: old(self)@.id,
                state: StateView { refs: 0, ..old(self)@.state },
                consumer: None,
                producer: None,
                val: None,
            }),
    {
        let _ = core;
        if self.state.ref_dec() != 1 {
            return false;
        }
        self.val = None;
        self.consumer_wait = None;
        self.producer_wait = None;
        true
    }

    /// One turn of waiting for the value with a parked thread. The value comes
    /// back if it is there. Otherwise the thread is noted as waiting; once the
    /// action is done, `consumer_poll` says whether to park.
    pub fn consumer_await(&mut self, thread: K) -> (r: (
        Option<AsyncResult<T, E>>,
        Action<T, E, C, D, K>,
    ))
        requires
            old(self).wf(),
            old(self)@.may_await(),
            !old(self)@.ready() ==> old(self)@.countable(),
        ensures
            final(self).requests() == old(self).requests(),
            final(self).wf(),
            old(self)@.ready() ==> final(self)@ == old(self)@.consumed(false) && r.0
                == old(self)@.val && r.1 is Idle,
            !old(self)@.ready() ==> r.0 is None && (final(self)@, r.1)
                == old(self)@.consumer_waits(WaitStrategy::Parked(thread)),
    {
        let curr = self.state.load();
        if curr.is_ready() {
            return (Some(self.consume_val(curr, false)), Action::Idle);
        }
        self.consumer_wait = Some(WaitStrategy::Parked(thread));
        (None, self.consumer_wait(curr))
    }

    /// The value, if it is there.
    pub fn consumer_poll(&mut self) -> (r: Option<AsyncResult<T, E>>)
        requires
            old(self).wf(),
        ensures
            final(self).requests() == old(self).requests(),
            final(self).wf(),
            r is Some <==> old(self)@.ready(),
            old(self)@.ready() ==> final(self)@ == old(self)@.consumed(false) && r
                == old(self)@.val,
            !old(self)@.ready() ==> final(self)@ == old(self)@,
    {
        let curr = self.state.load();
        if curr.is_ready() {
            Some(self.consume_val(curr, false))
        } else {
            None
        }
    }

    /// Whether the value is there.
    pub fn consumer_is_ready(&self) -> (r: bool)
        requires
            self.wf(),
        ensures
            r == self@.ready(),
    {
        self.state.load().is_ready()
    }

    /// Whether the value is there and is an error.
    pub fn consumer_is_err(&self) -> (r: bool)
        requires
            self.wf(),
        ensures
            r == (self@.ready() && self@.val matches Some(Err(_))),
    {
        if !self.state.load().is_ready() {
            return false;
        }
        match &self.val {
            Some(Err(_)) => true,
            _ => false,
        }
    }

    /// Asks for the value by the callback `f`.
    pub fn consumer_receive(&mut self, f: C) -> (r: Action<T, E, C, D, K>)
        requires
            old(self).wf(),
            old(self)@.countable(),
            old(self)@.may_consume(),
        ensures
            final(self).requests() == old(self).requests().wrapping_add(1),
            final(self).wf(),
            (final(self)@, r) == old(self)@.received(f),
    {
        let curr = self.state.load();
        self.consumer_receive_from(curr, f)
    }

    /// Asks for the value by the callback `f`, on the side of a consumer that has
    /// read the state `curr`, which the core may have left since.
    pub fn consumer_receive_from(&mut self, curr: State, f: C) -> (r: Action<T, E, C, D, K>)
        requires
            old(self).wf(),
            old(self)@.countable(),
            old(self)@.may_consume(),
            curr.wf(),
            consumer_saw(curr@, old(self)@.state),
        ensures
            final(self).requests() == old(self).requests().wrapping_add(1),
            final(self).wf(),
            (final(self)@, r) == old(self)@.received(f),
    {
        self.requests = self.requests.wrapping_add(1);
        if curr.is_ready() && !curr.is_consuming() {
            let val = self.consume_val(curr, true);
            return Action::Consume(f, val);
        }
        self.consumer_wait = Some(WaitStrategy::Callback(f));
        self.consumer_wait(curr)
    }

    /// How often the consumer has asked for a value by a callback, up to the
    /// wrapping of the number.
    pub fn request_count(&self) -> (r: u64)
        ensures
            r == self.requests(),
    {
        self.requests
    }

    /// Takes back the callback with which the consumer asked for the value at the
    /// request `count`, unless it has been started, or another request came since.
    pub fn consumer_ready_cancel(&mut self, count: u64) -> (r: Option<C>)
        requires
            old(self).wf(),
        ensures
            final(self).requests() == old(self).requests(),
            final(self).wf(),
            r is Some <==> count == old(self).requests() && old(self)@.retractable(),
            r matches Some(f) ==> (final(self)@, f) == old(self)@.retracted(),
            r is None ==> final(self)@ == old(self)@,
    {
        if count != self.requests {
            return None;
        }
        match &self.consumer_wait {
            Some(WaitStrategy::Callback(_)) => {},
            _ => {
                return None;
            },
        }
        let curr = self.state.load();
        let lifecycle = match curr.lifecycle() {
            Lifecycle::ConsumerNotify => Lifecycle::Ready,
            Lifecycle::ProducerNotify => Lifecycle::ProducerWait,
            _ => Lifecycle::New,
        };
        let _ = self.state.compare_and_swap(curr, curr.with_lifecycle(lifecycle));
        match self.consumer_wait.take() {
            Some(WaitStrategy::Callback(f)) => Some(f),
            _ => None,
        }
    }

    /// Reports that the consumer callback has returned.
    pub fn consumer_done(&mut self) -> (r: Action<T, E, C, D, K>)
        requires
            old(self).wf(),
            old(self)@.state.consuming,
        ensures
            final(self).requests() == old(self).requests(),
            final(self).wf(),
            (final(self)@, r) == old(self)@.consumer_returned(),
    {
        let curr = self.state.done_consuming();
        if curr.is_consumer_notify() {
            self.notify_consumer_loop(curr)
        } else {
            Action::Idle
        }
    }

    /// Moves on to the lifecycle in which a consumer waits, and tells the
    /// producer if that waits for one.
    fn consumer_wait(&mut self, curr: State) -> (r: Action<T, E, C, D, K>)
        requires
            old(self).inv(),
            curr.wf(),
            consumer_saw(curr@, old(self)@.state),
            old(self).consumer_wait is Some,
            old(self)@.without_consumer().wf(),
            old(self)@.countable(),
            old(self)@.may_consume(),
            old(self)@.state.consuming ==> old(self).consumer_wait->0 is Callback,
        ensures
            final(self).requests() == old(self).requests(),
            final(self).wf() || (old(self)@.ready() && old(self).consumer_wait->0 is Parked),
            final(self).inv(),
            (final(self)@, r) == old(self)@.without_consumer().consumer_waits(
                old(self).consumer_wait->0,
            ),
    {
        let mut curr = curr;
        loop
            invariant
                *self == *old(self),
                self.inv(),
                curr.wf(),
                consumer_saw(curr@, self@.state),
                self.consumer_wait is Some,
                self@.without_consumer().wf(),
                self@.countable(),
                self@.may_consume(),
                self@.state.consuming ==> self.consumer_wait->0 is Callback,
            decreases (if curr == self.state.held() { 0int } else { 1int }),
        {
            proof {
                self.state.lemma_held();
            }
            let mut notify_producer = false;
            let next = match curr.lifecycle() {
                Lifecycle::ProducerWait => {
                    if curr.is_producing() {
                        curr.with_lifecycle(Lifecycle::ProducerNotify)
                    } else {
                        notify_producer = true;
                        curr.with_lifecycle(Lifecycle::ConsumerWait)
                    }
                },
                Lifecycle::Ready | Lifecycle::ReadyProducerWait => {
                    return self.notify_consumer(curr);
                },
                _ => curr.with_lifecycle(Lifecycle::ConsumerWait),
            };
            let actual = self.state.compare_and_swap(curr, next);
            if actual == curr {
                if notify_producer {
                    return self.notify_producer(next);
                }
                return Action::Idle;
            }
            curr = actual;
        }
    }

    fn notify_consumer(&mut self, curr: State) -> (r: Action<T, E, C, D, K>)
        requires
            old(self).inv(),
            curr.wf(),
            curr@.lifecycle is Ready || curr@.lifecycle is ReadyProducerWait,
            curr@.consuming == old(self)@.state.consuming,
            old(self).consumer_wait is Some,
            old(self).val is Some,
            old(self)@.ready(),
            old(self)@.state.consuming ==> old(self)@.state.lifecycle is Ready
                && curr@.lifecycle is Ready,
        ensures
            final(self).requests() == old(self).requests(),
            final(self).inv(),
            (final(self)@, r) == old(self)@.notify_consumer(),
    {
        if curr.is_consuming() {
            self.defer_consumer_notify(curr);
            return Action::Idle;
        }
        self.notify_consumer_loop(curr)
    }

    /// Notes that the consumer callback is to be run once the one that runs has
    /// returned.
    fn defer_consumer_notify(&mut self, curr: State)
        requires
            old(self).inv(),
            curr.wf(),
            curr@.lifecycle is Ready,
            old(self)@.state.lifecycle is Ready,
        ensures
            final(self).requests() == old(self).requests(),
            final(self).inv(),
            final(self)@ == old(self)@.in_lifecycle(Lifecycle::ConsumerNotify),
    {
        let mut curr = curr;
        loop
            invariant
                *self == *old(self),
                self.inv(),
                curr.wf(),
                curr@.lifecycle is Ready,
                self@.state.lifecycle is Ready,
            decreases (if curr == self.state.held() { 0int } else { 1int }),
        {
            let next = curr.with_lifecycle(Lifecycle::ConsumerNotify);
            let actual = self.state.compare_and_swap(curr, next);
            if actual == curr {
                return ;
            }
            curr = actual;
        }
    }

    fn notify_consumer_loop(&mut self, curr: State) -> (r: Action<T, E, C, D, K>)
        requires
            old(self).inv(),
            curr.wf(),
            curr@.lifecycle.holds_value(),
            old(self).consumer_wait is Some,
            old(self).val is Some,
            old(self)@.state.lifecycle.holds_value(),
        ensures
            final(self).requests() == old(self).requests(),
            final(self).inv(),
            (final(self)@, r) == old(self)@.run_consumer(),
    {
        match self.consumer_wait.take() {
            Some(WaitStrategy::Callback(cb)) => {
                let val = self.consume_val(curr, true);
                Action::Consume(cb, val)
            },
            Some(WaitStrategy::Parked(thread)) => Action::Unpark(thread),
            None => Action::Idle,
        }
    }

    fn consume_val(&mut self, curr: State, callback: bool) -> (r: AsyncResult<T, E>)
        requires
            old(self).inv(),
            curr.wf(),
            curr@.lifecycle.holds_value(),
            old(self).val is Some,
            old(self)@.state.lifecycle.holds_value(),
        ensures
            final(self).requests() == old(self).requests(),
            final(self).inv(),
            final(self)@ == old(self)@.consumed(callback),
            Some(r) == old(self).val,
    {
        let ret = self.val.take().unwrap();
        let _ = self.state.consume(curr, callback);
        ret
    }

    /// One turn of waiting for the consumer with a parked thread. The result
    /// comes back if the producer need not wait. Otherwise the thread is noted
    /// as waiting; `producer_poll` says whether to park.
    pub fn producer_await(&mut self, thread: K) -> (r: Option<AsyncResult<Core, ()>>)
        requires
            old(self).wf(),
            old(self)@.countable(),
            !old(self)@.producer_ready() ==> !old(self)@.state.producing
                && old(self)@.state.lifecycle is New,
        ensures
            final(self).requests() == old(self).requests(),
            final(self).wf(),
            old(self)@.producer_ready() ==> r is Some && (final(self)@, r->0)
                == old(self)@.producer_result(),
            !old(self)@.producer_ready() ==> r is None && final(self)@ == (CoreView {
                producer: Some(WaitStrategy::Parked(thread)),
                ..old(self)@.in_lifecycle(Lifecycle::ProducerWait)
            }),
    {
        let curr = self.state.load();
        if curr.is_producer_ready() {
            return Some(self.producer_result(curr));
        }
        self.producer_wait = Some(WaitStrategy::Parked(thread));
        let _ = self.producer_wait(curr);
        None
    }

    /// What the producer is told, if it need not wait.
    pub fn producer_poll(&mut self) -> (r: Option<AsyncResult<Core, ()>>)
        requires
            old(self).wf(),
            old(self)@.countable(),
        ensures
            final(self).requests() == old(self).requests(),
            final(self).wf(),
            old(self)@.producer_ready() ==> r is Some && (final(self)@, r->0)
                == old(self)@.producer_result(),
            !old(self)@.producer_ready() ==> r is None && final(self)@ == old(self)@,
    {
        let curr = self.state.load();
        if curr.is_producer_ready() {
            Some(self.producer_result(curr))
        } else {
            None
        }
    }

    /// Whether the producer need not wait.
    pub fn producer_is_ready(&self) -> (r: bool)
        requires
            self.wf(),
        ensures
            r == self@.producer_ready(),
    {
        self.state.load().is_producer_ready()
    }

    /// Whether the producer need not wait, and has nobody to produce for.
    pub fn producer_is_err(&self) -> (r: bool)
        requires
            self.wf(),
        ensures
            r == (self@.state.lifecycle is Canceled),
    {
        self.state.load().is_canceled()
    }

    /// Asks for the consumer by the callback `f`.
    pub fn producer_receive(&mut self, f: D) -> (r: Action<T, E, C, D, K>)
        requires
            old(self).wf(),
            old(self)@.countable(),
            old(self)@.may_produce(),
        ensures
            final(self).requests() == old(self).requests(),
            final(self).wf(),
            (final(self)@, r) == old(self)@.producer_received(f),
    {
        let curr = self.state.load();
        self.producer_receive_from(curr, f)
    }

    /// Asks for the consumer by the callback `f`, on the side of a producer that
    /// has read the state `curr`, which the core may have left since.
    pub fn producer_receive_from(&mut self, curr: State, f: D) -> (r: Action<T, E, C, D, K>)
        requires
            old(self).wf(),
            old(self)@.countable(),
            old(self)@.may_produce(),
            curr.wf(),
            producer_saw(curr@, old(self)@.state),
        ensures
            final(self).requests() == old(self).requests(),
            final(self).wf(),
            (final(self)@, r) == old(self)@.producer_received(f),
    {
        if !curr.is_producing() {
            if curr.is_consumer_wait() || curr.is_canceled() {
                let running = self.state.produce(curr, true);
                let res = self.producer_result(running);
                return Action::Produce(f, res);
            }
        }
        self.producer_wait = Some(WaitStrategy::Callback(f));
        self.producer_wait(curr)
    }

    /// Reports that the producer callback has returned.
    pub fn producer_done(&mut self) -> (r: Action<T, E, C, D, K>)
        requires
            old(self).wf(),
            old(self)@.countable(),
            old(self)@.state.producing,
        ensures
            final(self).requests() == old(self).requests(),
            final(self).wf(),
            (final(self)@, r) == old(self)@.producer_returned(),
    {
        let curr = self.state.done_producing();
        if curr.is_producer_notify() {
            self.notify_producer_loop(curr)
        } else {
            Action::Idle
        }
    }

    /// Moves on to the lifecycle in which a producer waits, or tells the producer
    /// if there is something to tell already.
    fn producer_wait(&mut self, curr: State) -> (r: Action<T, E, C, D, K>)
        requires
            old(self).inv(),
            curr.wf(),
            producer_saw(curr@, old(self)@.state),
            old(self).producer_wait is Some,
            old(self)@.without_producer().wf(),
            old(self)@.countable(),
            old(self)@.may_produce(),
            old(self).producer_wait->0 is Parked ==> old(self)@.state.lifecycle is New
                && !old(self)@.state.producing,
        ensures
            final(self).requests() == old(self).requests(),
            final(self).wf(),
            old(self).producer_wait->0 matches WaitStrategy::Callback(f) ==> (final(self)@, r)
                == old(self)@.without_producer().producer_received(f),
            old(self).producer_wait->0 is Parked ==> final(self)@ == old(self)@.in_lifecycle(
                Lifecycle::ProducerWait,
            ) && r is Idle,
    {
        let mut curr = curr;
        loop
            invariant
                *self == *old(self),
                self.inv(),
                curr.wf(),
                producer_saw(curr@, self@.state),
                self.producer_wait is Some,
                self@.without_producer().wf(),
                self@.countable(),
                self@.may_produce(),
                self.producer_wait->0 is Parked ==> self@.state.lifecycle is New
                    && !self@.state.producing,
            decreases (if curr == self.state.held() { 0int } else { 1int }),
        {
            proof {
                self.state.lemma_held();
            }
            let next = match curr.lifecycle() {
                Lifecycle::New => curr.with_lifecycle(Lifecycle::ProducerWait),
                Lifecycle::Ready => curr.with_lifecycle(Lifecycle::ReadyProducerWait),
                _ => {
                    return self.notify_producer(curr);
                },
            };
            let actual = self.state.compare_and_swap(curr, next);
            if actual == curr {
                return Action::Idle;
            }
            curr = actual;
        }
    }

    fn notify_producer(&mut self, curr: State) -> (r: Action<T, E, C, D, K>)
        requires
            old(self).inv(),
            curr.wf(),
            curr@.lifecycle == old(self)@.state.lifecycle,
            curr@.producing == old(self)@.state.producing,
            old(self).producer_wait is Some,
            old(self)@.state.lifecycle is ConsumerWait || old(self)@.state.lifecycle is Canceled,
            old(self)@.countable() || old(self)@.state.producing || old(self)@.state.lifecycle is Canceled,
        ensures
            final(self).requests() == old(self).requests(),
            final(self).inv(),
            (final(self)@, r) == old(self)@.notify_producer(),
    {
        if curr.is_producing() {
            self.defer_producer_notify(curr);
            return Action::Idle;
        }
        self.notify_producer_loop(curr)
    }

    /// Notes that the producer callback is to be run once the one that runs has
    /// returned.
    fn defer_producer_notify(&mut self, curr: State)
        requires
            old(self).inv(),
            curr.wf(),
            curr@.lifecycle == old(self)@.state.lifecycle,
            old(self)@.state.lifecycle is ConsumerWait || old(self)@.state.lifecycle is Canceled,
        ensures
            final(self).requests() == old(self).requests(),
            final(self).inv(),
            final(self)@ == old(self)@.in_lifecycle(
                if old(self)@.state.lifecycle is Canceled {
                    Lifecycle::ProducerNotifyCanceled
                } else {
                    Lifecycle::ProducerNotify
                },
            ),
    {
        let mut curr = curr;
        loop
            invariant
                *self == *old(self),
                self.inv(),
                curr.wf(),
                curr@.lifecycle == self@.state.lifecycle,
                self@.state.lifecycle is ConsumerWait || self@.state.lifecycle is Canceled,
            decreases (if curr == self.state.held() { 0int } else { 1int }),
        {
            let next = match curr.lifecycle() {
                Lifecycle::Canceled => curr.with_lifecycle(Lifecycle::ProducerNotifyCanceled),
                _ => curr.with_lifecycle(Lifecycle::ProducerNotify),
            };
            let actual = self.state.compare_and_swap(curr, next);
            if actual == curr {
                return ;
            }
            curr = actual;
        }
    }

    fn notify_producer_loop(&mut self, curr: State) -> (r: Action<T, E, C, D, K>)
        requires
            old(self).inv(),
            curr.wf(),
            super::atomic_state::producible(curr@.lifecycle),
            old(self).producer_wait is Some,
            super::atomic_state::producible(old(self)@.state.lifecycle),
            old(self)@.countable() || old(self)@.state.lifecycle is Canceled,
        ensures
            final(self).requests() == old(self).requests(),
            final(self).inv(),
            (final(self)@, r) == old(self)@.run_producer(),
    {
        match self.producer_wait.take() {
            Some(WaitStrategy::Callback(cb)) => {
                let running = self.state.produce(curr, true);
                let res = self.producer_result(running);
                Action::Produce(cb, res)
            },
            Some(WaitStrategy::Parked(thread)) => Action::Unpark(thread),
            None => Action::Idle,
        }
    }

    fn producer_result(&mut self, curr: State) -> (r: AsyncResult<Core, ()>)
        requires
            old(self).inv(),
            curr == old(self).state.held(),
            old(self)@.countable() || old(self)@.state.lifecycle is Canceled,
        ensures
            final(self).requests() == old(self).requests(),
            final(self).inv(),
            (final(self)@, r) == old(self)@.producer_result(),
    {
        proof {
            self.state.lemma_held();
        }
        if !curr.is_canceled() {
            self.state.ref_inc();
            Ok(Core::issue(Ghost(self.id@)))
        } else {
            Err(AsyncError::canceled())
        }
    }

    /// Cancels on the side of the consumer.
    pub fn cancel(&mut self) -> (r: Action<T, E, C, D, K>)
        requires
            old(self).wf(),
            old(self)@.may_cancel(),
        ensures
            final(self).requests() == old(self).requests(),
            final(self).wf(),
            (final(self)@, r) == old(self)@.canceled(),
    {
        let curr = self.state.load();
        self.cancel_from(curr)
    }

    /// Cancels on the side of a consumer that has read the state `curr`, which the
    /// core may have left since.
    pub fn cancel_from(&mut self, curr: State) -> (r: Action<T, E, C, D, K>)
        requires
            old(self).wf(),
            old(self)@.may_cancel(),
            curr.wf(),
            consumer_saw(curr@, old(self)@.state),
        ensures
            final(self).requests() == old(self).requests(),
            final(self).wf(),
            (final(self)@, r) == old(self)@.canceled(),
    {
        let mut curr = curr;
        loop
            invariant
                *self == *old(self),
                self.wf(),
                self@.may_cancel(),
                curr.wf(),
                consumer_saw(curr@, self@.state),
            decreases (if curr == self.state.held() { 0int } else { 1int }),
        {
            proof {
                self.state.lemma_held();
            }
            let mut read_val = false;
            let mut notify_producer = false;
            let next = match curr.lifecycle() {
                Lifecycle::ProducerWait => {
                    if curr.is_producing() {
                        curr.with_lifecycle(Lifecycle::ProducerNotifyCanceled)
                    } else {
                        notify_producer = true;
                        curr.with_lifecycle(Lifecycle::Canceled)
                    }
                },
                Lifecycle::Ready => {
                    read_val = true;
                    curr.with_lifecycle(Lifecycle::Canceled)
                },
                Lifecycle::ReadyProducerWait => {
                    read_val = true;
                    notify_producer = true;
                    curr.with_lifecycle(Lifecycle::Canceled)
                },
                _ => curr.with_lifecycle(Lifecycle::Canceled),
            };
            let actual = self.state.compare_and_swap(curr, next);
            if actual == curr {
                if read_val {
                    self.val = None;
                }
                if notify_producer {
                    return self.notify_producer(next);
                }
                return Action::Idle;
            }
            curr = actual;
        }
    }

    /// Provides the value on the side of the producer.
    pub fn complete(&mut self, val: AsyncResult<T, E>) -> (r: Action<T, E, C, D, K>)
        requires
            old(self).wf(),
            old(self)@.may_complete(),
        ensures
            final(self).requests() == old(self).requests(),
            final(self).wf(),
            (final(self)@, r) == old(self)@.completed(val),
    {
        let curr = self.state.load();
        self.complete_from(curr, val)
    }

    /// Provides the value on the side of a producer that has read the state
    /// `curr`, which the core may have left since.
    pub fn complete_from(&mut self, curr: State, val: AsyncResult<T, E>) -> (r: Action<
        T,
        E,
        C,
        D,
        K,
    >)
        requires
            old(self).wf(),
            old(self)@.may_complete(),
            curr.wf(),
            producer_saw(curr@, old(self)@.state),
            !(curr@.lifecycle is Ready),
        ensures
            final(self).requests() == old(self).requests(),
            final(self).wf(),
            (final(self)@, r) == old(self)@.completed(val),
    {
        if curr.is_canceled() {
            return Action::Idle;
        }
        self.val = Some(val);
        let ghost filled = *self;
        let mut curr = curr;
        loop
            invariant
                *self == filled,
                filled.state == old(self).state,
                filled.consumer_wait == old(self).consumer_wait,
                filled.producer_wait == old(self).producer_wait,
                filled.requests == old(self).requests,
                filled.id == old(self).id,
                filled.val == Some(val),
                old(self).wf(),
                old(self)@.may_complete(),
                curr.wf(),
                producer_saw(curr@, self@.state),
                !(curr@.lifecycle is Ready),
            decreases (if curr == self.state.held() { 0int } else { 1int }),
        {
            proof {
                self.state.lemma_held();
            }
            let next = match curr.lifecycle() {
                Lifecycle::Canceled => {
                    self.val = None;
                    return Action::Idle;
                },
                _ => curr.with_lifecycle(Lifecycle::Ready),
            };
            let actual = self.state.compare_and_swap(curr, next);
            if actual == curr {
                if curr.is_consumer_wait() {
                    return self.notify_consumer(next);
                }
                return Action::Idle;
            }
            curr = actual;
        }
    }
}

} // verus!
