//! The two ends of a sequence of asynchronous values, which share one core.
use super::cell::{Action, Core, CoreInner, OptionCore, WaitStrategy};
use super::error::{AsyncError, AsyncResult};
use super::future::fresh;
use super::receipt::{self, Receipt};
use vstd::prelude::*;

verus! {

/// The realized head of a stream: the first value and the rest, or the end.
pub type Head<T, E> = Option<(T, Stream<T, E>)>;

/// The end of the consumer.
pub struct Stream<T, E> {
    core: OptionCore,
    val: core::marker::PhantomData<(T, E)>,
}

impl<T, E> Stream<T, E> {
    /// The core that the end holds a handle to.
    pub closed spec fn held(&self) -> Option<int> {
        self.core@
    }

    /// The end with the handle `core`.
    pub fn from_core(core: Core) -> (r: Stream<T, E>)
        ensures
            r.held() == Some(core@),
    {
        Stream { core: OptionCore::new(core), val: core::marker::PhantomData }
    }

    /// Creates a new `Stream`, returning it with its core and the associated
    /// `Sender`.
    pub fn pair<C, D, K>() -> (r: (
        CoreInner<Head<T, E>, E, C, D, K>,
        Sender<T, E>,
        Stream<T, E>,
    ))
        ensures
            r.0.wf(),
            r.0@ == fresh::<Head<T, E>, E, C, D, K>(r.0@.id, 2),
            r.1.held() == Some(r.0@.id),
            r.2.held() == Some(r.0@.id),
    {
        let mut cell = CoreInner::new();
        let core = cell.acquire();
        let stream = Stream::from_core(core);
        let sender = Sender::from_core(Core::issue(Ghost(cell@.id)));
        (cell, sender, stream)
    }

    /// Whether the head is there.
    pub fn is_ready<C, D, K>(&self, cell: &CoreInner<Head<T, E>, E, C, D, K>) -> (r: bool)
        requires
            cell.wf(),
        ensures
            r == cell@.ready(),
    {
        cell.consumer_is_ready()
    }

    /// Whether the head is there and is an error.
    pub fn is_err<C, D, K>(&self, cell: &CoreInner<Head<T, E>, E, C, D, K>) -> (r: bool)
        requires
            cell.wf(),
        ensures
            r == (cell@.ready() && cell@.val matches Some(Err(_))),
    {
        cell.consumer_is_err()
    }

    /// Gets the head if it is there, with the handle of this end, which is to be
    /// released. Otherwise the stream comes back.
    pub fn poll<C, D, K>(self, cell: &mut CoreInner<Head<T, E>, E, C, D, K>) -> (r: Result<
        (Core, AsyncResult<Head<T, E>, E>),
        Stream<T, E>,
    >)
        requires
            self.held() == Some(old(cell)@.id),
            old(cell).wf(),
        ensures
            final(cell).wf(),
            r is Ok <==> old(cell)@.ready(),
            r matches Ok(v) ==> final(cell)@ == old(cell)@.consumed(false) && Some(v.1)
                == old(cell)@.val && v.0@ == old(cell)@.id,
            r matches Err(s) ==> s.held() == Some(old(cell)@.id) && final(cell)@ == old(cell)@,
    {
        let mut this = self;
        let core = this.core.take();
        match cell.consumer_poll() {
            Some(res) => Ok((core, res)),
            None => Err(Stream::from_core(core)),
        }
    }

    /// Asks for the head by the callback `f`.
    pub fn receive<C, D, K>(self, cell: &mut CoreInner<Head<T, E>, E, C, D, K>, f: C) -> (r: (
        Core,
        Action<Head<T, E>, E, C, D, K>,
    ))
        requires
            self.held() == Some(old(cell)@.id),
            old(cell).wf(),
            old(cell)@.countable(),
            old(cell)@.may_consume(),
        ensures
            final(cell).wf(),
            r.0@ == old(cell)@.id,
            (final(cell)@, r.1) == old(cell)@.received(f),
    {
        let mut this = self;
        let core = this.core.take();
        let action = cell.consumer_receive(f);
        (core, action)
    }

    /// Asks for the head by the callback `f`, which can be taken back by the receipt
    /// that is returned. Where the callback is to be called at once there is
    /// nothing to take back, and the handle of this end is to be released.
    pub fn ready<C, D, K>(self, cell: &mut CoreInner<Head<T, E>, E, C, D, K>, f: C) -> (r: (
        Receipt<Stream<T, E>>,
        Option<Core>,
        Action<Head<T, E>, E, C, D, K>,
    ))
        requires
            self.held() == Some(old(cell)@.id),
            old(cell).wf(),
            old(cell)@.countable(),
            old(cell)@.may_consume(),
        ensures
            final(cell).wf(),
            final(cell).requests() == old(cell).requests().wrapping_add(1),
            (final(cell)@, r.2) == old(cell)@.received(f),
            r.2 is Consume ==> r.0@ == (None::<Core>, 0u64) && r.1 is Some && r.1->0@
                == old(cell)@.id,
            !(r.2 is Consume) ==> r.0@ == (Some(Core::handle(old(cell)@.id)), final(cell).requests())
                && r.1 is None,
    {
        let mut this = self;
        let core = this.core.take();
        proof {
            Core::lemma_handle(cell@.id);
        }
        let action = cell.consumer_receive(f);
        match action {
            Action::Consume(_, _) => (receipt::none(), Some(core), action),
            _ => (receipt::new(core, cell.request_count()), None, action),
        }
    }

    /// One turn of waiting for the head with a parked thread.
    pub fn wait<C, D, K>(self, cell: &mut CoreInner<Head<T, E>, E, C, D, K>, thread: K) -> (r: (
        Core,
        Option<AsyncResult<Head<T, E>, E>>,
        Action<Head<T, E>, E, C, D, K>,
    ))
        requires
            self.held() == Some(old(cell)@.id),
            old(cell).wf(),
            old(cell)@.may_await(),
            !old(cell)@.ready() ==> old(cell)@.countable(),
        ensures
            final(cell).wf(),
            r.0@ == old(cell)@.id,
            old(cell)@.ready() ==> final(cell)@ == old(cell)@.consumed(false) && r.1
                == old(cell)@.val && r.2 is Idle,
            !old(cell)@.ready() ==> r.1 is None && (final(cell)@, r.2)
                == old(cell)@.consumer_waits(WaitStrategy::Parked(thread)),
    {
        let mut this = self;
        let core = this.core.take();
        let (val, action) = cell.consumer_await(thread);
        (core, val, action)
    }

    /// Gives up the stream.
    pub fn discard<C, D, K>(self, cell: &mut CoreInner<Head<T, E>, E, C, D, K>) -> (r: (
        Core,
        Action<Head<T, E>, E, C, D, K>,
    ))
        requires
            self.held() == Some(old(cell)@.id),
            old(cell).wf(),
            old(cell)@.may_cancel(),
        ensures
            final(cell).wf(),
            r.0@ == old(cell)@.id,
            (final(cell)@, r.1) == old(cell)@.canceled(),
    {
        let mut this = self;
        let core = this.core.take();
        let action = cell.cancel();
        (core, action)
    }

    /// Iterates over the stream.
    pub fn iter(self) -> (r: StreamIter<T, E>)
        requires
            self.held() is Some,
        ensures
            r.held() == self.held(),
    {
        let mut this = self;
        StreamIter { core: OptionCore::new(this.core.take()), val: core::marker::PhantomData }
    }
}

/// The sending half of `Stream::pair()`. Can only be owned by a single task at a
/// time.
pub struct Sender<T, E> {
    core: OptionCore,
    val: core::marker::PhantomData<(T, E)>,
}

impl<T, E> Sender<T, E> {
    /// The core that the end holds a handle to.
    pub closed spec fn held(&self) -> Option<int> {
        self.core@
    }

    /// The end with the handle `core`.
    pub fn from_core(core: Core) -> (r: Sender<T, E>)
        ensures
            r.held() == Some(core@),
    {
        Sender { core: OptionCore::new(core), val: core::marker::PhantomData }
    }

    /// Sends a value to the stream. The sender is busy until the consumer has
    /// expressed interest in the next value.
    pub fn send<C, D, K>(self, cell: &mut CoreInner<Head<T, E>, E, C, D, K>, val: T) -> (r: (
        BusySender<T, E>,
        Action<Head<T, E>, E, C, D, K>,
    ))
        requires
            self.held() == Some(old(cell)@.id),
            old(cell).wf(),
            old(cell)@.countable(),
            old(cell)@.may_complete(),
        ensures
            final(cell).wf(),
            r.0.held() == Some(old(cell)@.id),
            exists|rest: Stream<T, E>|
                {
                    &&& rest.held() == Some(old(cell)@.id)
                    &&& (final(cell)@, r.1) == #[trigger] old(cell)@.one_more().completed(
                        Ok(Some((val, rest))),
                    )
                },
    {
        let mut this = self;
        let core = this.core.take();
        let handle = cell.acquire();
        let rest = Stream::from_core(handle);
        let ghost kept = rest;
        let action = cell.complete(Ok(Some((val, rest))));
        assert((cell@, action) == old(cell)@.one_more().completed(Ok(Some((val, kept)))));
        (BusySender::from_core(core), action)
    }

    /// Ends the stream with an error.
    pub fn fail<C, D, K>(self, cell: &mut CoreInner<Head<T, E>, E, C, D, K>, err: E) -> (r: (
        Core,
        Action<Head<T, E>, E, C, D, K>,
    ))
        requires
            self.held() == Some(old(cell)@.id),
            old(cell).wf(),
            old(cell)@.may_complete(),
        ensures
            final(cell).wf(),
            r.0@ == old(cell)@.id,
            (final(cell)@, r.1) == old(cell)@.completed(Err(AsyncError::ExecutionError(err))),
    {
        let mut this = self;
        let core = this.core.take();
        let action = cell.complete(Err(AsyncError::wrap(err)));
        (core, action)
    }

    /// Ends the stream with an error, be it a failure or a cancellation.
    pub fn end_with<C, D, K>(
        self,
        cell: &mut CoreInner<Head<T, E>, E, C, D, K>,
        err: AsyncError<E>,
    ) -> (r: (Core, Action<Head<T, E>, E, C, D, K>))
        requires
            self.held() == Some(old(cell)@.id),
            old(cell).wf(),
            old(cell)@.may_complete(),
        ensures
            final(cell).wf(),
            r.0@ == old(cell)@.id,
            (final(cell)@, r.1) == old(cell)@.completed(Err(err)),
    {
        let mut this = self;
        let core = this.core.take();
        let action = cell.complete(Err(err));
        (core, action)
    }

    /// Ends the stream.
    pub fn done<C, D, K>(self, cell: &mut CoreInner<Head<T, E>, E, C, D, K>) -> (r: (
        Core,
        Action<Head<T, E>, E, C, D, K>,
    ))
        requires
            self.held() == Some(old(cell)@.id),
            old(cell).wf(),
            old(cell)@.may_complete(),
        ensures
            final(cell).wf(),
            r.0@ == old(cell)@.id,
            (final(cell)@, r.1) == old(cell)@.completed(Ok(None)),
    {
        let mut this = self;
        let core = this.core.take();
        let action = cell.complete(Ok(None));
        (core, action)
    }

    /// Whether the consumer has expressed interest, or is gone.
    pub fn is_ready<C, D, K>(&self, cell: &CoreInner<Head<T, E>, E, C, D, K>) -> (r: bool)
        requires
            cell.wf(),
        ensures
            r == cell@.producer_ready(),
    {
        cell.producer_is_ready()
    }

    /// Whether the consumer is gone.
    pub fn is_err<C, D, K>(&self, cell: &CoreInner<Head<T, E>, E, C, D, K>) -> (r: bool)
        requires
            cell.wf(),
        ensures
            r == (cell@.state.lifecycle is Canceled),
    {
        cell.producer_is_err()
    }

    /// Gets a sender if the consumer has expressed interest, or the news that it
    /// is gone, with the handle of this end, which is to be released. Otherwise
    /// the sender comes back.
    pub fn poll<C, D, K>(self, cell: &mut CoreInner<Head<T, E>, E, C, D, K>) -> (r: Result<
        (Core, AsyncResult<Sender<T, E>, ()>),
        Sender<T, E>,
    >)
        requires
            self.held() == Some(old(cell)@.id),
            old(cell).wf(),
            old(cell)@.countable(),
        ensures
            final(cell).wf(),
            r is Ok <==> old(cell)@.producer_ready(),
            r matches Ok(v) ==> {
                &&& v.0@ == old(cell)@.id
                &&& final(cell)@ == old(cell)@.producer_result().0
                &&& v.1 is Ok <==> old(cell)@.producer_result().1 is Ok
                &&& v.1 matches Ok(s) ==> s.held() == Some(old(cell)@.id)
                &&& v.1 matches Err(e) ==> e is CancellationError
            },
            r matches Err(s) ==> s.held() == Some(old(cell)@.id) && final(cell)@ == old(cell)@,
    {
        let mut this = self;
        let core = this.core.take();
        proof {
            Core::lemma_handle(cell@.id);
        }
        match cell.producer_poll() {
            Some(Ok(handle)) => Ok((core, Ok(Sender::from_core(handle)))),
            Some(Err(e)) => Ok((core, Err(e))),
            None => Err(Sender::from_core(core)),
        }
    }

    /// Asks for the interest of the consumer by the callback `f`.
    pub fn receive<C, D, K>(self, cell: &mut CoreInner<Head<T, E>, E, C, D, K>, f: D) -> (r: (
        Core,
        Action<Head<T, E>, E, C, D, K>,
    ))
        requires
            self.held() == Some(old(cell)@.id),
            old(cell).wf(),
            old(cell)@.countable(),
            old(cell)@.may_produce(),
        ensures
            final(cell).wf(),
            r.0@ == old(cell)@.id,
            (final(cell)@, r.1) == old(cell)@.producer_received(f),
    {
        let mut this = self;
        let core = this.core.take();
        let action = cell.producer_receive(f);
        (core, action)
    }

    /// Asks for the interest of the consumer by the callback `f`, which cannot be
    /// taken back.
    pub fn ready<C, D, K>(self, cell: &mut CoreInner<Head<T, E>, E, C, D, K>, f: D) -> (r: (
        Receipt<Sender<T, E>>,
        Core,
        Action<Head<T, E>, E, C, D, K>,
    ))
        requires
            self.held() == Some(old(cell)@.id),
            old(cell).wf(),
            old(cell)@.countable(),
            old(cell)@.may_produce(),
        ensures
            final(cell).wf(),
            (final(cell)@, r.2) == old(cell)@.producer_received(f),
            r.1@ == old(cell)@.id,
            r.0@ == (None::<Core>, 0u64),
    {
        let (core, action) = self.receive(cell, f);
        (receipt::none(), core, action)
    }
}

/// A sender whose last value may not have been consumed.
pub struct BusySender<T, E> {
    core: OptionCore,
    val: core::marker::PhantomData<(T, E)>,
}

impl<T, E> BusySender<T, E> {
    /// The core that the end holds a handle to.
    pub closed spec fn held(&self) -> Option<int> {
        self.core@
    }

    /// The end with the handle `core`.
    pub fn from_core(core: Core) -> (r: BusySender<T, E>)
        ensures
            r.held() == Some(core@),
    {
        BusySender { core: OptionCore::new(core), val: core::marker::PhantomData }
    }

    /// Whether `poll` will succeed.
    pub fn is_ready<C, D, K>(&self, cell: &CoreInner<Head<T, E>, E, C, D, K>) -> (r: bool)
        requires
            cell.wf(),
        ensures
            r == cell@.producer_ready(),
    {
        cell.producer_is_ready()
    }

    /// Whether `poll` will come to an error.
    pub fn is_err<C, D, K>(&self, cell: &CoreInner<Head<T, E>, E, C, D, K>) -> (r: bool)
        requires
            cell.wf(),
        ensures
            r == (cell@.state.lifecycle is Canceled),
    {
        cell.producer_is_err()
    }

    /// Gets the sender back if the producer need not wait, or the news that the
    /// consumer is gone, with the handle of this end, which is to be released.
    /// Otherwise the busy sender comes back.
    pub fn poll<C, D, K>(self, cell: &mut CoreInner<Head<T, E>, E, C, D, K>) -> (r: Result<
        (Core, AsyncResult<Sender<T, E>, ()>),
        BusySender<T, E>,
    >)
        requires
            self.held() == Some(old(cell)@.id),
            old(cell).wf(),
            old(cell)@.countable(),
        ensures
            final(cell).wf(),
            r is Ok <==> old(cell)@.producer_ready(),
            r matches Ok(v) ==> {
                &&& v.0@ == old(cell)@.id
                &&& final(cell)@ == old(cell)@.producer_result().0
                &&& v.1 is Ok <==> old(cell)@.producer_result().1 is Ok
                &&& v.1 matches Ok(s) ==> s.held() == Some(old(cell)@.id)
                &&& v.1 matches Err(e) ==> e is CancellationError
            },
            r matches Err(s) ==> s.held() == Some(old(cell)@.id) && final(cell)@ == old(cell)@,
    {
        let mut this = self;
        let core = this.core.take();
        proof {
            Core::lemma_handle(cell@.id);
        }
        match cell.producer_poll() {
            Some(Ok(handle)) => Ok((core, Ok(Sender::from_core(handle)))),
            Some(Err(e)) => Ok((core, Err(e))),
            None => Err(BusySender::from_core(core)),
        }
    }

    /// Asks for the interest of the consumer in the next value by the callback
    /// `f`.
    pub fn receive<C, D, K>(self, cell: &mut CoreInner<Head<T, E>, E, C, D, K>, f: D) -> (r: (
        Core,
        Action<Head<T, E>, E, C, D, K>,
    ))
        requires
            self.held() == Some(old(cell)@.id),
            old(cell).wf(),
            old(cell)@.countable(),
            old(cell)@.may_produce(),
        ensures
            final(cell).wf(),
            r.0@ == old(cell)@.id,
            (final(cell)@, r.1) == old(cell)@.producer_received(f),
    {
        let mut this = self;
        let core = this.core.take();
        let action = cell.producer_receive(f);
        (core, action)
    }

    /// Asks for the interest of the consumer by the callback `f`, which cannot be
    /// taken back.
    pub fn ready<C, D, K>(self, cell: &mut CoreInner<Head<T, E>, E, C, D, K>, f: D) -> (r: (
        Receipt<BusySender<T, E>>,
        Core,
        Action<Head<T, E>, E, C, D, K>,
    ))
        requires
            self.held() == Some(old(cell)@.id),
            old(cell).wf(),
            old(cell)@.countable(),
            old(cell)@.may_produce(),
        ensures
            final(cell).wf(),
            (final(cell)@, r.2) == old(cell)@.producer_received(f),
            r.1@ == old(cell)@.id,
            r.0@ == (None::<Core>, 0u64),
    {
        let (core, action) = self.receive(cell, f);
        (receipt::none(), core, action)
    }

    /// Gives the sender up. The stream is to end when the consumer asks for the next value:
    /// the callback `f` is to call `end` with what it gets.
    pub fn discard<C, D, K>(self, cell: &mut CoreInner<Head<T, E>, E, C, D, K>, f: D) -> (r: (
        Core,
        Action<Head<T, E>, E, C, D, K>,
    ))
        requires
            self.held() == Some(old(cell)@.id),
            old(cell).wf(),
            old(cell)@.countable(),
            old(cell)@.may_produce(),
        ensures
            final(cell).wf(),
            r.0@ == old(cell)@.id,
            (final(cell)@, r.1) == old(cell)@.producer_received(f),
    {
        self.receive(cell, f)
    }

    /// Ends the stream of a sender that was given up, where the consumer has asked for the
    /// next value. One that is gone has nothing to be told.
    pub fn end<C, D, K>(
        told: AsyncResult<Core, ()>,
        cell: &mut CoreInner<Head<T, E>, E, C, D, K>,
    ) -> (r: Option<(Core, Action<Head<T, E>, E, C, D, K>)>)
        requires
            old(cell).wf(),
            told matches Ok(core) ==> core@ == old(cell)@.id && old(cell)@.may_complete(),
        ensures
            final(cell).wf(),
            told is Ok ==> (r matches Some(owed) && owed.0@ == old(cell)@.id && (
            final(cell)@,
            owed.1,
            ) == old(cell)@.completed(Ok(None))),
            told is Err ==> r is None && final(cell)@ == old(cell)@,
    {
        match told {
            Ok(core) => Some(Sender::from_core(core).done(cell)),
            Err(_) => None,
        }
    }
}

/// Iterates over a stream.
pub struct StreamIter<T, E> {
    core: OptionCore,
    val: core::marker::PhantomData<(T, E)>,
}

impl<T, E> StreamIter<T, E> {
    /// The core that the iterator holds a handle to, until the stream has ended.
    pub closed spec fn held(&self) -> Option<int> {
        self.core@
    }

    /// The iterator has gone on with the head `head`: it gave the value `item` and holds
    /// on to the rest, or it is over.
    pub open spec fn went_on(&self, head: Head<T, E>, item: Option<T>) -> bool {
        match head {
            Some((val, rest)) => item == Some(val) && self.held() == rest.held(),
            None => item is None && self.held() is None,
        }
    }

    /// One turn of waiting for the head with a parked thread.
    pub fn wait<C, D, K>(&self, cell: &mut CoreInner<Head<T, E>, E, C, D, K>, thread: K) -> (r: (
        Option<AsyncResult<Head<T, E>, E>>,
        Action<Head<T, E>, E, C, D, K>,
    ))
        requires
            self.held() == Some(old(cell)@.id),
            old(cell).wf(),
            old(cell)@.may_await(),
            !old(cell)@.ready() ==> old(cell)@.countable(),
        ensures
            final(cell).wf(),
            old(cell)@.ready() ==> final(cell)@ == old(cell)@.consumed(false) && r.0
                == old(cell)@.val && r.1 is Idle,
            !old(cell)@.ready() ==> r.0 is None && (final(cell)@, r.1)
                == old(cell)@.consumer_waits(WaitStrategy::Parked(thread)),
    {
        cell.consumer_await(thread)
    }

    /// Goes on with the head that came: the iterator holds on to the rest of the
    /// stream. The handle of the stream before it is to be released.
    pub fn next(&mut self, head: Head<T, E>) -> (r: (Core, Option<T>))
        requires
            old(self).held() is Some,
            head matches Some(h) ==> h.1.held() is Some,
        ensures
            Some(r.0@) == old(self).held(),
            final(self).went_on(head, r.1),
    {
        let core = self.core.take();
        match head {
            Some((h, rest)) => {
                let mut rest = rest;
                self.core = OptionCore::new(rest.core.take());
                (core, Some(h))
            },
            None => (core, None),
        }
    }

    /// Gives up the rest of the stream.
    pub fn discard<C, D, K>(self, cell: &mut CoreInner<Head<T, E>, E, C, D, K>) -> (r: (
        Core,
        Action<Head<T, E>, E, C, D, K>,
    ))
        requires
            self.held() == Some(old(cell)@.id),
            old(cell).wf(),
            old(cell)@.may_cancel(),
        ensures
            final(cell).wf(),
            r.0@ == old(cell)@.id,
            (final(cell)@, r.1) == old(cell)@.canceled(),
    {
        let mut this = self;
        let core = this.core.take();
        let action = cell.cancel();
        (core, action)
    }
}

} // verus!
