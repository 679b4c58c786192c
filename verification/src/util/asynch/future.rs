//! The two ends of one asynchronous value.
//!
//! An end holds a counted handle to the core of the value, and the core itself is
//! handed to every operation. An operation that ends the life of its end gives
//! the handle back, to be released once the action that it returned is done.
use super::cell::{Action, Core, CoreInner, CoreView, OptionCore, WaitStrategy};
use super::error::{AsyncError, AsyncResult};
use super::state::{Lifecycle, StateView};
use super::stream::{Head, Stream};
use vstd::prelude::*;

verus! {

/// A fresh core with the identity `id` and `refs` handles.
pub open spec fn fresh<T, E, C, D, K>(id: int, refs: nat) -> CoreView<T, E, C, D, K> {
    CoreView {
        id,
        state: StateView { lifecycle: Lifecycle::New, consuming: false, producing: false, refs },
        consumer: None,
        producer: None,
        val: None,
    }
}

/// A core with the identity `id` and one handle that holds the value `val`.
pub open spec fn holding<T, E, C, D, K>(
    id: int,
    val: AsyncResult<T, E>,
) -> CoreView<T, E, C, D, K> {
    CoreView {
        id,
        state: StateView {
            lifecycle: Lifecycle::Ready,
            consuming: false,
            producing: false,
            refs: 1,
        },
        consumer: None,
        producer: None,
        val: Some(val),
    }
}

/// The end of the consumer: a proxy for the result of a computation which may not
/// be complete.
pub struct Future<T, E> {
    core: OptionCore,
    val: core::marker::PhantomData<(T, E)>,
}

impl<T, E> Future<T, E> {
    /// The core that the end holds a handle to.
    pub closed spec fn held(&self) -> Option<int> {
        self.core@
    }

    /// The end with the handle `core`.
    pub(crate) fn from_core(core: Core) -> (r: Future<T, E>)
        ensures
            r.held() == Some(core@),
    {
        Future { core: OptionCore::new(core), val: core::marker::PhantomData }
    }

    /// A value that is to be completed: its core and its two ends.
    pub fn pair<C, D, K>() -> (r: (CoreInner<T, E, C, D, K>, Future<T, E>, Complete<T, E>))
        ensures
            r.0.wf(),
            r.0@ == fresh::<T, E, C, D, K>(r.0@.id, 2),
            r.1.held() == Some(r.0@.id),
            r.2.held() == Some(r.0@.id),
    {
        let mut cell = CoreInner::new();
        let core = cell.acquire();
        let future = Future::from_core(core);
        let complete = Complete::from_core(Core::issue(Ghost(cell@.id)));
        (cell, future, complete)
    }

    /// Returns an immediately ready future containing the supplied value.
    pub fn of<C, D, K>(val: T) -> (r: (CoreInner<T, E, C, D, K>, Future<T, E>))
        ensures
            r.0.wf(),
            r.0@ == holding::<T, E, C, D, K>(r.0@.id, Ok(val)),
            r.1.held() == Some(r.0@.id),
    {
        let cell = CoreInner::with_value(Ok(val));
        let core = Core::issue(Ghost(cell@.id));
        (cell, Future::from_core(core))
    }

    /// Returns a future that will immediately fail with the supplied error.
    pub fn error<C, D, K>(err: E) -> (r: (CoreInner<T, E, C, D, K>, Future<T, E>))
        ensures
            r.0.wf(),
            r.0@ == holding::<T, E, C, D, K>(r.0@.id, Err(AsyncError::ExecutionError(err))),
            r.1.held() == Some(r.0@.id),
    {
        let cell = CoreInner::with_value(Err(AsyncError::wrap(err)));
        let core = Core::issue(Ghost(cell@.id));
        (cell, Future::from_core(core))
    }

    /// Returns a future that is canceled.
    pub fn canceled<C, D, K>() -> (r: (CoreInner<T, E, C, D, K>, Future<T, E>))
        ensures
            r.0.wf(),
            r.0@ == holding::<T, E, C, D, K>(r.0@.id, Err(AsyncError::CancellationError)),
            r.1.held() == Some(r.0@.id),
    {
        let cell = CoreInner::with_value(Err(AsyncError::canceled()));
        let core = Core::issue(Ghost(cell@.id));
        (cell, Future::from_core(core))
    }

    /// Returns a future whose producer `f` is run once the consumer has expressed
    /// interest. The handle of the producer comes along, to be released.
    pub fn lazy<C, D, K>(f: D) -> (r: (CoreInner<T, E, C, D, K>, Future<T, E>, Core))
        ensures
            r.0.wf(),
            (r.0@, Action::<T, E, C, D, K>::Idle) == fresh::<T, E, C, D, K>(r.0@.id, 2).producer_received(
                f,
            ),
            r.1.held() == Some(r.0@.id),
            r.2@ == r.0@.id,
    {
        let (mut cell, future, complete) = Future::pair();
        let (core, _) = complete.receive(&mut cell, f);
        (cell, future, core)
    }

    /// Asks for the value by the callback `f`.
    pub fn receive<C, D, K>(self, cell: &mut CoreInner<T, E, C, D, K>, f: C) -> (r: (
        Core,
        Action<T, E, C, D, K>,
    ))
        requires
            self.held() == Some(old(cell)@.id),
            old(cell).wf(),
            old(cell)@.countable(),
            old(cell)@.may_consume(),
        ensures
            final(cell).wf(),
            r.0@ == old(cell)@.id,
            (final(cell)@, r.1) == old(cell)@.received(f),
    {
        let mut this = self;
        let core = this.core.take();
        let action = cell.consumer_receive(f);
        (core, action)
    }

    /// One turn of waiting for the value with a parked thread.
    pub fn wait<C, D, K>(self, cell: &mut CoreInner<T, E, C, D, K>, thread: K) -> (r: (
        Core,
        Option<AsyncResult<T, E>>,
        Action<T, E, C, D, K>,
    ))
        requires
            self.held() == Some(old(cell)@.id),
            old(cell).wf(),
            old(cell)@.may_await(),
            !old(cell)@.ready() ==> old(cell)@.countable(),
        ensures
            final(cell).wf(),
            r.0@ == old(cell)@.id,
            old(cell)@.ready() ==> final(cell)@ == old(cell)@.consumed(false) && r.1
                == old(cell)@.val && r.2 is Idle,
            !old(cell)@.ready() ==> r.1 is None && (final(cell)@, r.2)
                == old(cell)@.consumer_waits(WaitStrategy::Parked(thread)),
    {
        let mut this = self;
        let core = this.core.take();
        let (val, action) = cell.consumer_await(thread);
        (core, val, action)
    }

    /// Whether the value is there.
    pub fn is_ready<C, D, K>(&self, cell: &CoreInner<T, E, C, D, K>) -> (r: bool)
        requires
            cell.wf(),
        ensures
            r == cell@.ready(),
    {
        cell.consumer_is_ready()
    }

    /// Gives up the value.
    pub fn discard<C, D, K>(self, cell: &mut CoreInner<T, E, C, D, K>) -> (r: (
        Core,
        Action<T, E, C, D, K>,
    ))
        requires
            self.held() == Some(old(cell)@.id),
            old(cell).wf(),
            old(cell)@.may_cancel(),
        ensures
            final(cell).wf(),
            r.0@ == old(cell)@.id,
            (final(cell)@, r.1) == old(cell)@.canceled(),
    {
        let mut this = self;
        let core = this.core.take();
        let action = cell.cancel();
        (core, action)
    }
}

impl<T, E> Future<Head<T, E>, E> {
    /// The future of the head of a stream, as that stream.
    pub fn as_stream(self) -> (r: Stream<T, E>)
        requires
            self.held() is Some,
        ensures
            r.held() == self.held(),
    {
        let mut this = self;
        Stream::from_core(this.core.take())
    }
}

/// The end of the producer.
pub struct Complete<T, E> {
    core: OptionCore,
    val: core::marker::PhantomData<(T, E)>,
}

impl<T, E> Complete<T, E> {
    /// The core that the end holds a handle to.
    pub closed spec fn held(&self) -> Option<int> {
        self.core@
    }

    /// The end with the handle `core`.
    pub fn from_core(core: Core) -> (r: Complete<T, E>)
        ensures
            r.held() == Some(core@),
    {
        Complete { core: OptionCore::new(core), val: core::marker::PhantomData }
    }

    /// Provides the value.
    pub fn complete<C, D, K>(self, cell: &mut CoreInner<T, E, C, D, K>, val: T) -> (r: (
        Core,
        Action<T, E, C, D, K>,
    ))
        requires
            self.held() == Some(old(cell)@.id),
            old(cell).wf(),
            old(cell)@.may_complete(),
        ensures
            final(cell).wf(),
            r.0@ == old(cell)@.id,
            (final(cell)@, r.1) == old(cell)@.completed(Ok(val)),
    {
        let mut this = self;
        let core = this.core.take();
        let action = cell.complete(Ok(val));
        (core, action)
    }

    /// Provides an error.
    pub fn fail<C, D, K>(self, cell: &mut CoreInner<T, E, C, D, K>, err: E) -> (r: (
        Core,
        Action<T, E, C, D, K>,
    ))
        requires
            self.held() == Some(old(cell)@.id),
            old(cell).wf(),
            old(cell)@.may_complete(),
        ensures
            final(cell).wf(),
            r.0@ == old(cell)@.id,
            (final(cell)@, r.1) == old(cell)@.completed(Err(AsyncError::ExecutionError(err))),
    {
        let mut this = self;
        let core = this.core.take();
        let action = cell.complete(Err(AsyncError::wrap(err)));
        (core, action)
    }

    /// Goes without a value.
    pub fn discard<C, D, K>(self, cell: &mut CoreInner<T, E, C, D, K>) -> (r: (
        Core,
        Action<T, E, C, D, K>,
    ))
        requires
            self.held() == Some(old(cell)@.id),
            old(cell).wf(),
            old(cell)@.may_complete(),
        ensures
            final(cell).wf(),
            r.0@ == old(cell)@.id,
            (final(cell)@, r.1) == old(cell)@.completed(Err(AsyncError::CancellationError)),
    {
        let mut this = self;
        let core = this.core.take();
        let action = cell.complete(Err(AsyncError::canceled()));
        (core, action)
    }

    /// Provides what an asynchronous computation came to. A computation that was
    /// canceled leaves the value canceled.
    pub fn settle<C, D, K>(
        self,
        cell: &mut CoreInner<T, E, C, D, K>,
        res: AsyncResult<T, E>,
    ) -> (r: (Core, Action<T, E, C, D, K>))
        requires
            self.held() == Some(old(cell)@.id),
            old(cell).wf(),
            old(cell)@.may_complete(),
        ensures
            final(cell).wf(),
            r.0@ == old(cell)@.id,
            (final(cell)@, r.1) == old(cell)@.completed(res),
    {
        match res {
            Ok(u) => self.complete(cell, u),
            Err(AsyncError::ExecutionError(e)) => self.fail(cell, e),
            Err(AsyncError::CancellationError) => self.discard(cell),
        }
    }

    /// Asks for the interest of the consumer by the callback `f`.
    pub fn receive<C, D, K>(self, cell: &mut CoreInner<T, E, C, D, K>, f: D) -> (r: (
        Core,
        Action<T, E, C, D, K>,
    ))
        requires
            self.held() == Some(old(cell)@.id),
            old(cell).wf(),
            old(cell)@.countable(),
            old(cell)@.may_produce(),
        ensures
            final(cell).wf(),
            r.0@ == old(cell)@.id,
            (final(cell)@, r.1) == old(cell)@.producer_received(f),
    {
        let mut this = self;
        let core = this.core.take();
        let action = cell.producer_receive(f);
        (core, action)
    }

    /// One turn of waiting for the interest of the consumer with a parked thread.
    pub fn wait<C, D, K>(self, cell: &mut CoreInner<T, E, C, D, K>, thread: K) -> (r: (
        Core,
        Option<AsyncResult<Complete<T, E>, ()>>,
    ))
        requires
            self.held() == Some(old(cell)@.id),
            old(cell).wf(),
            old(cell)@.countable(),
            !old(cell)@.producer_ready() ==> !old(cell)@.state.producing
                && old(cell)@.state.lifecycle is New,
        ensures
            final(cell).wf(),
            r.0@ == old(cell)@.id,
            r.1 is Some <==> old(cell)@.producer_ready(),
            r.1 matches Some(res) ==> {
                &&& final(cell)@ == old(cell)@.producer_result().0
                &&& res is Ok <==> old(cell)@.producer_result().1 is Ok
                &&& res matches Ok(c) ==> c.held() == Some(old(cell)@.id)
                &&& res matches Err(e) ==> e is CancellationError
            },
            r.1 is None ==> final(cell)@ == (CoreView {
                producer: Some(WaitStrategy::Parked(thread)),
                ..old(cell)@.in_lifecycle(Lifecycle::ProducerWait)
            }),
    {
        let mut this = self;
        let core = this.core.take();
        proof {
            Core::lemma_handle(cell@.id);
        }
        match cell.producer_await(thread) {
            Some(Ok(handle)) => (core, Some(Ok(Complete::from_core(handle)))),
            Some(Err(e)) => (core, Some(Err(e))),
            None => (core, None),
        }
    }
}

} // verus!
