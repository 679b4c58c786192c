//! A basic future, whose consumers and whose producer share one cell.
//!
//! The cell moves between these states.
//!
//! * Pending
//!     - ConsumerWait: a consumer expressed interest in the value.
//!     - ProducerWait: the producer is waiting for consumer interest.
//!     - Complete: the producer has completed the future.
//!     - Canceled: the consumers have canceled the future.
//! * ConsumerWait
//!     - Complete: the future has been completed, waiting consumers are notified.
//! * ProducerWait
//!     - Pending: the producer is being notified, of interest or of the
//!       cancelation.
//!     - Canceled: the consumers have canceled the future.
//!
//! The other states are final.
//!
//! The cell tracks the number of consumers. Once the future has been realized
//! and consumers start taking the result, the value is cloned. For the last
//! consumer, the value is moved out. The future is canceled only once all the
//! consumers have issued a cancel.
use super::future::{
    Cancel, Future, FutureError, FutureErrorKind, FutureResult, SyncFuture,
};
use vstd::prelude::*;

verus! {

/// How somebody waits.
#[derive(Debug)]
pub enum WaitStrategy<C, K> {
    /// With a function to call.
    Callback(C),
    /// With a thread that is parked.
    Park(K),
}

/// The state of a future.
#[derive(Debug)]
pub enum State<C, D, K> {
    Pending,
    ConsumerWait(Vec<WaitStrategy<C, K>>),
    ProducerWait(WaitStrategy<D, K>),
    Complete,
    Canceled,
}

impl<C, D, K> State<C, D, K> {
    /// What the state is.
    pub open spec fn view(&self) -> Phase<C, D, K> {
        match *self {
            State::Pending => Phase::Pending,
            State::ConsumerWait(ws) => Phase::ConsumerWait(ws@),
            State::ProducerWait(w) => Phase::ProducerWait(w),
            State::Complete => Phase::Complete,
            State::Canceled => Phase::Canceled,
        }
    }

    /// Whether nothing has happened yet.
    pub fn is_pending(&self) -> (r: bool)
        ensures
            r == (self@ is Pending),
    {
        match self {
            State::Pending => true,
            _ => false,
        }
    }

    /// Whether the future was given up.
    pub fn is_canceled(&self) -> (r: bool)
        ensures
            r == (self@ is Canceled),
    {
        match self {
            State::Canceled => true,
            _ => false,
        }
    }

    /// Whether consumers wait.
    pub fn is_consumer_wait(&self) -> (r: bool)
        ensures
            r == (self@ is ConsumerWait),
    {
        match self {
            State::ConsumerWait(_) => true,
            _ => false,
        }
    }

    /// Whether the producer waits.
    pub fn is_producer_wait(&self) -> (r: bool)
        ensures
            r == (self@ is ProducerWait),
    {
        match self {
            State::ProducerWait(_) => true,
            _ => false,
        }
    }
}

/// What the state of a future is.
pub ghost enum Phase<C, D, K> {
    Pending,
    ConsumerWait(Seq<WaitStrategy<C, K>>),
    ProducerWait(WaitStrategy<D, K>),
    Complete,
    Canceled,
}

/// What the cell of a future is.
#[verifier::ext_equal]
pub ghost struct FutureView<T, F, C, D, K> {
    /// The identity of the cell, by which its consumers and its producer are told.
    pub id: int,
    /// The realized value.
    pub val: Option<FutureResult<T>>,
    /// The state of the future.
    pub state: Phase<C, D, K>,
    /// The number of consumers that have not yet got the value or given up.
    pub clones: nat,
    /// What clones the value, if there ever was more than one consumer.
    pub cloner: Option<F>,
}

/// Somebody has to be told of what happened.
pub enum Notice<T, D, K> {
    /// Nobody.
    Nobody,
    /// The producer, by calling its function: with the producer if a consumer
    /// is interested, else with the error.
    Invoke(D, FutureResult<Producer<T>>),
    /// The producer, by unparking its thread.
    Unpark(K),
}

/// What a turn of receiving the value comes to.
pub enum ReceiveStep<T, C, D, K> {
    /// The producer has to be told first; then the consumer tries again.
    Notify(FutureVal<T>, C, Notice<T, D, K>),
    /// The function has to be called with the value.
    Invoke(C, FutureResult<T>),
    /// The function is called when the value is there.
    Registered(Interest),
}

/// What a turn of taking the value comes to.
pub enum TakeStep<T, D, K> {
    /// The producer has to be told first; then the consumer tries again.
    Notify(FutureVal<T>, K, Notice<T, D, K>),
    /// This is the value.
    Ready(FutureResult<T>),
    /// The thread has to be parked, then to ask with `take_parked`.
    Park,
}

/// What a waiting consumer gets.
#[derive(Debug)]
pub enum Delivery<T, C, K> {
    /// Its function has to be called with the value.
    Invoke(C, FutureResult<T>),
    /// Its thread has to be unparked. It takes the value itself.
    Unpark(K),
}

/// What a turn of receiving the interest of the consumers comes to.
pub enum InterestStep<T, D> {
    /// The function has to be called, with the producer or with the error.
    Invoke(D, FutureResult<Producer<T>>),
    /// The function is called when a consumer is interested, or all are gone.
    Registered(ProducerInterest),
}

/// What a turn of waiting for the interest of the consumers comes to.
pub enum InterestTake<T> {
    /// There is interest, or there are no consumers left.
    Ready(FutureResult<Producer<T>>),
    /// The thread has to be parked, then to ask with `producer_take_parked`.
    Park,
}

/// The right to one consumption of the value of a future. Its view is the identity of
/// the cell of the future.
pub struct FutureVal<T> {
    id: Ghost<int>,
    token: core::marker::PhantomData<T>,
}

/// The right to complete a future. Its view is the identity of the cell of the future.
pub struct Producer<T> {
    id: Ghost<int>,
    token: core::marker::PhantomData<T>,
}

/// The identity of a new cell, of which nothing is known.
proof fn any_id() -> (id: int) {
    0
}

/// The interest of a consumer that waits for the value.
#[derive(Clone, Copy, Debug, PartialEq, Eq)]
pub struct Interest;

/// The interest of a producer that waits for consumers.
#[derive(Clone, Copy, Debug, PartialEq, Eq)]
pub struct ProducerInterest;

/// The error of a future that its consumers gave up.
pub open spec fn is_cancelation(e: FutureError) -> bool {
    e.kind is CancelationError && e.desc@ == "future was canceled by consumer"@
}

/// The error of a future that its consumers gave up.
pub fn cancelation() -> (r: FutureError)
    ensures
        is_cancelation(r),
{
    FutureError {
        kind: FutureErrorKind::CancelationError,
        desc: "future was canceled by consumer",
    }
}

/// Clones the result of a future.
pub fn cloner<T: Clone>(val: &FutureResult<T>) -> (r: FutureResult<T>)
    ensures
        *val matches Ok(v) ==> r is Ok && cloned(v, r->Ok_0),
        *val matches Err(e) ==> r == Err::<T, FutureError>(e),
{
    match val {
        Ok(v) => Ok(v.clone()),
        Err(e) => Err(*e),
    }
}

/// How many of those that wait do so with a function to call.
pub open spec fn callbacks<C, K>(ws: Seq<WaitStrategy<C, K>>) -> nat
    decreases ws.len(),
{
    if ws.len() == 0 {
        0
    } else {
        callbacks(ws.drop_last()) + if ws.last() is Callback {
            1nat
        } else {
            0
        }
    }
}

impl<T, F, C, D, K> FutureView<T, F, C, D, K> where
    F: Fn(&FutureResult<T>) -> FutureResult<T>,
 {
    /// What holds of every cell: the value is there from the completion until the
    /// last consumer has got it, whoever waits is one of the consumers, and where
    /// there is more than one the value can be cloned.
    pub open spec fn wf(self) -> bool {
        &&& self.val is Some <==> self.state is Complete && self.clones > 0
        &&& self.state is Pending || self.state is ProducerWait ==> self.clones > 0
        &&& self.state matches Phase::ConsumerWait(ws) ==> 0 < ws.len() <= self.clones
        &&& self.state is Canceled ==> self.clones == 0
        &&& self.clones > 1 ==> self.cloner is Some
        &&& self.cloner matches Some(f) ==> forall|v: &FutureResult<T>|
            #[trigger] call_requires(f, (v,))
    }

    /// How many consumers wait.
    pub open spec fn waiting(self) -> nat {
        match self.state {
            Phase::ConsumerWait(ws) => ws.len(),
            _ => 0,
        }
    }

    /// There is a consumer that neither waits nor has the value.
    pub open spec fn has_consumer(self) -> bool {
        self.waiting() < self.clones
    }

    /// The producer is free to act: it does not wait and has not completed.
    pub open spec fn has_producer(self) -> bool {
        self.state is Pending || self.state is ConsumerWait || self.state is Canceled
    }

    /// The cell with one consumer less.
    pub open spec fn one_less(self) -> FutureView<T, F, C, D, K> {
        FutureView {
            val: if self.clones == 1 {
                None
            } else {
                self.val
            },
            clones: (self.clones - 1) as nat,
            ..self
        }
    }

    /// The cell with one consumer more.
    pub open spec fn cloned_with(self, f: F) -> FutureView<T, F, C, D, K> {
        FutureView {
            clones: self.clones + 1,
            cloner: match self.cloner {
                Some(g) => Some(g),
                None => Some(f),
            },
            ..self
        }
    }

    /// The cell in another state.
    pub open spec fn in_state(self, state: Phase<C, D, K>) -> FutureView<T, F, C, D, K> {
        FutureView { state, ..self }
    }

    /// `v` is what one of the consumers gets when the value is `val`: the last one
    /// gets the value itself, any other one a clone.
    pub open spec fn share(self, val: FutureResult<T>, v: FutureResult<T>) -> bool {
        if self.clones == 1 {
            v == val
        } else {
            call_ensures(self.cloner->0, (&val,), v)
        }
    }

    /// The cell with one more that waits for the value.
    pub open spec fn with_waiter(self, w: WaitStrategy<C, K>) -> FutureView<T, F, C, D, K> {
        match self.state {
            Phase::ConsumerWait(ws) => self.in_state(Phase::ConsumerWait(ws.push(w))),
            _ => self.in_state(Phase::ConsumerWait(seq![w])),
        }
    }

    /// What the producer that waits has to be told when there is interest or,
    /// without it, when the future was given up.
    pub open spec fn notice(self, interest: bool, n: Notice<T, D, K>) -> bool {
        match self.state {
            Phase::ProducerWait(WaitStrategy::Callback(d)) => n matches Notice::Invoke(f, p) && f
                == d && (interest <==> p is Ok) && (p matches Err(e) ==> is_cancelation(e)) && (
            p matches Ok(producer) ==> producer@ == self.id),
            Phase::ProducerWait(WaitStrategy::Park(k)) => n == Notice::<T, D, K>::Unpark(k),
            _ => n is Nobody,
        }
    }

    /// The cell once the producer that waits has been told.
    pub open spec fn notified(self) -> FutureView<T, F, C, D, K> {
        if self.state is ProducerWait {
            self.in_state(Phase::Pending)
        } else {
            self
        }
    }

    /// The cell after one consumer has given up: the last one cancels the future.
    pub open spec fn given_up(self) -> FutureView<T, F, C, D, K> {
        if self.clones == 1 && (self.state is Pending || self.state is ProducerWait) {
            self.one_less().in_state(Phase::Canceled)
        } else {
            self.one_less()
        }
    }

    /// The cell with the value `val`, before anybody got it.
    pub open spec fn realized(self, val: FutureResult<T>) -> FutureView<T, F, C, D, K> {
        FutureView { val: Some(val), state: Phase::Complete, ..self }
    }

    /// The cell after `n` consumers got the value.
    pub open spec fn shared(self, n: nat) -> FutureView<T, F, C, D, K> {
        FutureView {
            val: if self.clones == n {
                None
            } else {
                self.val
            },
            clones: (self.clones - n) as nat,
            ..self
        }
    }

    /// The cell after the producer has completed the future with `val`: a
    /// canceled one stays canceled, else those that wait with a function get the
    /// value at once.
    pub open spec fn completed(self, val: FutureResult<T>) -> FutureView<T, F, C, D, K> {
        match self.state {
            Phase::Canceled => self,
            Phase::ConsumerWait(ws) => self.realized(val).shared(callbacks(ws)),
            _ => self.realized(val),
        }
    }

    /// What the consumer `w` gets that waits behind those of `before`.
    pub open spec fn delivered(
        self,
        val: FutureResult<T>,
        before: Seq<WaitStrategy<C, K>>,
        w: WaitStrategy<C, K>,
        d: Delivery<T, C, K>,
    ) -> bool {
        match w {
            WaitStrategy::Callback(c) => d matches Delivery::Invoke(f, v) && f == c
                && self.shared(callbacks(before)).share(val, v),
            WaitStrategy::Park(k) => d == Delivery::<T, C, K>::Unpark(k),
        }
    }

    /// What those that wait get when the producer completes the future with
    /// `val`: one delivery each, in the order in which they came.
    pub open spec fn deliveries(self, val: FutureResult<T>, r: Seq<Delivery<T, C, K>>) -> bool {
        match self.state {
            Phase::ConsumerWait(ws) => r.len() == ws.len() && forall|i: int|
                0 <= i < ws.len() ==> self.delivered(val, ws.take(i), ws[i], #[trigger] r[i]),
            _ => r.len() == 0,
        }
    }

    /// The cell has become `after` because a consumer gave up, and `notice` is owed: the
    /// producer that waits is told once the future is canceled.
    pub open spec fn consumer_gone(
        self,
        after: FutureView<T, F, C, D, K>,
        notice: Notice<T, D, K>,
    ) -> bool {
        &&& after.wf()
        &&& after == self.given_up()
        &&& if after.state is Canceled {
            self.notice(false, notice)
        } else {
            notice is Nobody
        }
    }

    /// The cell has become `after` by a turn of receiving the value with `cb`, which came to
    /// `step`.
    pub open spec fn receive_turned(
        self,
        cb: C,
        after: FutureView<T, F, C, D, K>,
        step: ReceiveStep<T, C, D, K>,
    ) -> bool {
        &&& after.wf()
        &&& match step {
            ReceiveStep::Notify(f, c, n) => f@ == self.id && self.state is ProducerWait && c == cb
                && self.notice(true, n) && after == self.notified(),
            ReceiveStep::Invoke(c, v) => self.val is Some && c == cb && self.share(self.val->0, v)
                && after == self.one_less(),
            ReceiveStep::Registered(_) => !(self.state is ProducerWait) && self.val is None
                && after == self.with_waiter(WaitStrategy::Callback(cb)),
        }
    }

    /// The cell has become `after` by the first turn of taking the value with `thread`, which
    /// came to `step`.
    pub open spec fn take_turned(
        self,
        thread: K,
        after: FutureView<T, F, C, D, K>,
        step: TakeStep<T, D, K>,
    ) -> bool {
        &&& after.wf()
        &&& match step {
            TakeStep::Notify(f, k, n) => f@ == self.id && self.state is ProducerWait && k == thread
                && self.notice(true, n) && after == self.notified(),
            TakeStep::Ready(v) => self.val is Some && self.share(self.val->0, v) && after
                == self.one_less(),
            TakeStep::Park => !(self.state is ProducerWait) && self.val is None && after
                == self.with_waiter(WaitStrategy::Park(thread)),
        }
    }

    /// The cell has become `after` by a turn of receiving the interest of the consumers with
    /// `cb`, which came to `step`.
    pub open spec fn interest_turned(
        self,
        cb: D,
        after: FutureView<T, F, C, D, K>,
        step: InterestStep<T, D>,
    ) -> bool {
        &&& after.wf()
        &&& match step {
            InterestStep::Registered(_) => self.state is Pending && after == self.in_state(
                Phase::ProducerWait(WaitStrategy::Callback(cb)),
            ),
            InterestStep::Invoke(d, p) => !(self.state is Pending) && d == cb && self.interest(p)
                && after == self,
        }
    }

    /// The cell has become `after` by the first turn of waiting for the interest of the
    /// consumers with `thread`, which came to `step`.
    pub open spec fn interest_taken(
        self,
        thread: K,
        after: FutureView<T, F, C, D, K>,
        step: InterestTake<T>,
    ) -> bool {
        &&& after.wf()
        &&& match step {
            InterestTake::Park => self.state is Pending && after == self.in_state(
                Phase::ProducerWait(WaitStrategy::Park(thread)),
            ),
            InterestTake::Ready(p) => !(self.state is Pending) && self.interest(p) && after
                == self,
        }
    }

    /// What the producer is told of the consumers.
    pub open spec fn interest(self, p: FutureResult<Producer<T>>) -> bool {
        if self.state is Canceled {
            p matches Err(e) && is_cancelation(e)
        } else {
            p matches Ok(producer) && producer@ == self.id
        }
    }
}

/// The cell that the two sides of a future share: `T` is the value, `F` what
/// clones it, `C` the functions of the consumers, `D` those of the producer, and
/// `K` the threads.
pub struct FutureImpl<T, F, C, D, K> {
    val: Option<FutureResult<T>>,
    state: State<C, D, K>,
    clones: usize,
    cloner: Option<F>,
    id: Ghost<int>,
}

impl<T, F, C, D, K> FutureImpl<T, F, C, D, K> where
    F: Fn(&FutureResult<T>) -> FutureResult<T>,
 {
    /// What the cell is.
    pub closed spec fn view(&self) -> FutureView<T, F, C, D, K> {
        FutureView {
            id: self.id@,
            val: self.val,
            state: self.state@,
            clones: self.clones as nat,
            cloner: self.cloner,
        }
    }

    /// A cell without a value, with one consumer.
    pub fn new() -> (r: FutureImpl<T, F, C, D, K>)
        ensures
            r@.wf(),
            r@ == (FutureView::<T, F, C, D, K> {
                id: r@.id,
                val: None,
                state: Phase::Pending,
                clones: 1,
                cloner: None,
            }),
    {
        let ghost mut id = 0int;
        proof {
            id = any_id();
        }
        FutureImpl { val: None, state: State::Pending, clones: 1, cloner: None, id: Ghost(id) }
    }

    /// Takes one share of the value.
    fn take_value(&mut self) -> (r: Option<FutureResult<T>>)
        requires
            old(self)@.wf(),
        ensures
            r is None <==> old(self)@.val is None,
            r is None ==> final(self)@ == old(self)@,
            r matches Some(v) ==> final(self)@ == old(self)@.one_less() && old(self)@.share(
                old(self)@.val->0,
                v,
            ) && final(self)@.wf(),
    {
        if self.val.is_none() {
            return None;
        }
        self.clones -= 1;
        if self.clones == 0 {
            self.val.take()
        } else {
            match &self.cloner {
                Some(cloner) => Some(cloner(self.val.as_ref().unwrap())),
                None => None,
            }
        }
    }

    /// Registers one more that waits for the value.
    fn push_consumer_wait(&mut self, strategy: WaitStrategy<C, K>) -> (r: usize)
        requires
            old(self)@.wf(),
            old(self)@.state is Pending || old(self)@.state is ConsumerWait,
            old(self)@.has_consumer(),
        ensures
            final(self)@.wf(),
            final(self)@ == old(self)@.with_waiter(strategy),
            r == old(self)@.waiting(),
    {
        if let State::ConsumerWait(vec) = &mut self.state {
            let ret: usize = vec.len();
            vec.push(strategy);
            ret
        } else {
            let mut vec: Vec<WaitStrategy<C, K>> = Vec::new();
            vec.push(strategy);
            assert(vec@ =~= seq![strategy]);
            self.state = State::ConsumerWait(vec);
            0
        }
    }

    /// Takes out those that wait for the value, and leaves the state `Complete`.
    fn take_consumer_wait(&mut self) -> (r: Vec<WaitStrategy<C, K>>)
        ensures
            old(self)@.state matches Phase::ConsumerWait(ws) ==> r@ == ws,
            !(old(self)@.state is ConsumerWait) ==> r@.len() == 0,
            final(self)@ == old(self)@.in_state(Phase::Complete),
    {
        let mut state: State<C, D, K> = State::Complete;
        core::mem::swap(&mut self.state, &mut state);
        match state {
            State::ConsumerWait(ws) => ws,
            _ => Vec::new(),
        }
    }

    /// Takes out the producer that waits, and leaves the state `Pending`.
    fn take_producer_wait(&mut self) -> (r: Option<WaitStrategy<D, K>>)
        ensures
            r == (match old(self)@.state {
                Phase::ProducerWait(w) => Some(w),
                _ => None,
            }),
            final(self)@ == old(self)@.notified(),
    {
        if self.state.is_producer_wait() {
            let mut state: State<C, D, K> = State::Pending;
            core::mem::swap(&mut self.state, &mut state);
            match state {
                State::ProducerWait(strategy) => Some(strategy),
                _ => None,
            }
        } else {
            None
        }
    }

    /// Takes out the producer that waits, and says how it is told.
    fn producer_notify(&mut self, interest: bool) -> (r: Notice<T, D, K>)
        ensures
            old(self)@.notice(interest, r),
            final(self)@ == old(self)@.notified(),
    {
        match self.take_producer_wait() {
            Some(WaitStrategy::Callback(cb)) => {
                if interest {
                    Notice::Invoke(cb, Ok(Producer::new(Ghost(self.id@))))
                } else {
                    Notice::Invoke(cb, Err(cancelation()))
                }
            },
            Some(WaitStrategy::Park(thread)) => Notice::Unpark(thread),
            None => Notice::Nobody,
        }
    }

    /// Whether one more consumer can be counted.
    pub fn can_clone(&self) -> (r: bool)
        ensures
            r == (self@.clones < usize::MAX),
    {
        self.clones < usize::MAX
    }

    /// Counts one more consumer.
    fn consumer_clone(&mut self, cloner: F)
        requires
            old(self)@.wf(),
            old(self)@.clones > 0,
            old(self)@.clones < usize::MAX,
            forall|v: &FutureResult<T>| #[trigger] call_requires(cloner, (v,)),
        ensures
            final(self)@.wf(),
            final(self)@ == old(self)@.cloned_with(cloner),
    {
        self.clones += 1;
        if self.cloner.is_none() {
            self.cloner = Some(cloner);
        }
    }

    /// The next turn of taking the value, for a thread that was parked.
    pub fn take_parked(&mut self) -> (r: Option<FutureResult<T>>)
        requires
            old(self)@.wf(),
        ensures
            final(self)@.wf(),
            r is None <==> old(self)@.val is None,
            r is None ==> final(self)@ == old(self)@,
            r matches Some(v) ==> final(self)@ == old(self)@.one_less() && old(self)@.share(
                old(self)@.val->0,
                v,
            ),
    {
        self.take_value()
    }

    /// The next turn of waiting for the interest of the consumers, for a thread
    /// that was parked.
    pub fn producer_take_parked(&mut self) -> (r: InterestTake<T>)
        requires
            old(self)@.wf(),
        ensures
            *final(self) == *old(self),
            r is Park <==> old(self)@.state is ProducerWait,
            r matches InterestTake::Ready(p) ==> old(self)@.interest(p),
    {
        if self.state.is_producer_wait() {
            return InterestTake::Park;
        }
        if self.state.is_canceled() {
            InterestTake::Ready(Err(cancelation()))
        } else {
            InterestTake::Ready(Ok(Producer::new(Ghost(self.id@))))
        }
    }
}

impl<T> FutureVal<T> {
    /// The identity of the cell of the future.
    pub closed spec fn view(&self) -> int {
        self.id@
    }

    /// One consumer of the future in the cell `id`.
    fn new(id: Ghost<int>) -> (r: FutureVal<T>)
        ensures
            r@ == id@,
    {
        FutureVal { id, token: core::marker::PhantomData }
    }

    /// Makes another consumer of the same future.
    pub fn clone<F, C, D, K>(&self, cell: &mut FutureImpl<T, F, C, D, K>, cloner: F) -> (r:
        FutureVal<T>) where F: Fn(&FutureResult<T>) -> FutureResult<T>
        requires
            self@ == old(cell)@.id,
            old(cell)@.wf(),
            old(cell)@.has_consumer(),
            old(cell)@.clones < usize::MAX,
            forall|v: &FutureResult<T>| #[trigger] call_requires(cloner, (v,)),
        ensures
            final(cell)@.wf(),
            final(cell)@ == old(cell)@.cloned_with(cloner),
            r@ == old(cell)@.id,
    {
        cell.consumer_clone(cloner);
        FutureVal::new(Ghost(cell@.id))
    }

    /// Whether this is a consumer of the future in `cell` that neither waits nor has the
    /// value.
    pub open spec fn consumes<F, C, D, K>(&self, cell: FutureView<T, F, C, D, K>) -> bool where
        F: Fn(&FutureResult<T>) -> FutureResult<T>,
     {
        self@ == cell.id && cell.wf() && cell.has_consumer()
    }

    /// Gives up the value.
    pub fn cancel<F, C, D, K>(self, cell: &mut FutureImpl<T, F, C, D, K>) -> (r: Notice<
        T,
        D,
        K,
    >) where F: Fn(&FutureResult<T>) -> FutureResult<T>
        requires
            self.consumes(old(cell)@),
        ensures
            old(cell)@.consumer_gone(final(cell)@, r),
    {
        cell.clones -= 1;
        if cell.clones > 0 {
            return Notice::Nobody;
        }
        if cell.state.is_pending() || cell.state.is_producer_wait() {
            let notice = cell.producer_notify(false);
            cell.state = State::Canceled;
            return notice;
        }
        cell.val = None;
        Notice::Nobody
    }

    /// One turn of having the function `cb` called with the value.
    pub fn receive<F, C, D, K>(self, cell: &mut FutureImpl<T, F, C, D, K>, cb: C) -> (r: ReceiveStep<
        T,
        C,
        D,
        K,
    >) where F: Fn(&FutureResult<T>) -> FutureResult<T>
        requires
            self.consumes(old(cell)@),
        ensures
            old(cell)@.receive_turned(cb, final(cell)@, r),
    {
        if cell.state.is_producer_wait() {
            let notice = cell.producer_notify(true);
            return ReceiveStep::Notify(self, cb, notice);
        }
        if let Some(val) = cell.take_value() {
            return ReceiveStep::Invoke(cb, val);
        }
        cell.push_consumer_wait(WaitStrategy::Callback(cb));
        ReceiveStep::Registered(Interest)
    }

    /// The first turn of getting the value with the thread `thread`.
    pub fn take<F, C, D, K>(self, cell: &mut FutureImpl<T, F, C, D, K>, thread: K) -> (r: TakeStep<
        T,
        D,
        K,
    >) where F: Fn(&FutureResult<T>) -> FutureResult<T>
        requires
            self.consumes(old(cell)@),
        ensures
            old(cell)@.take_turned(thread, final(cell)@, r),
    {
        if cell.state.is_producer_wait() {
            let notice = cell.producer_notify(true);
            return TakeStep::Notify(self, thread, notice);
        }
        if let Some(val) = cell.take_value() {
            return TakeStep::Ready(val);
        }
        cell.push_consumer_wait(WaitStrategy::Park(thread));
        TakeStep::Park
    }
}

impl<T, F, C, D, K> Cancel<FutureImpl<T, F, C, D, K>> for FutureVal<T> where
    F: Fn(&FutureResult<T>) -> FutureResult<T>,
 {
    type Notice = Notice<T, D, K>;

    open spec fn may_cancel(&self, cell: FutureImpl<T, F, C, D, K>) -> bool {
        self.consumes(cell@)
    }

    open spec fn canceled(
        &self,
        cell: FutureImpl<T, F, C, D, K>,
        after: FutureImpl<T, F, C, D, K>,
        notice: Notice<T, D, K>,
    ) -> bool {
        cell@.consumer_gone(after@, notice)
    }

    fn cancel(self, cell: &mut FutureImpl<T, F, C, D, K>) -> (r: Notice<T, D, K>) {
        FutureVal::cancel(self, cell)
    }
}

impl<T, F, C, D, K> Future<FutureImpl<T, F, C, D, K>> for FutureVal<T> where
    F: Fn(&FutureResult<T>) -> FutureResult<T>,
 {
    type Callback = C;

    type Step = ReceiveStep<T, C, D, K>;

    open spec fn may_receive(&self, cell: FutureImpl<T, F, C, D, K>) -> bool {
        self.consumes(cell@)
    }

    open spec fn received(
        &self,
        cell: FutureImpl<T, F, C, D, K>,
        cb: C,
        after: FutureImpl<T, F, C, D, K>,
        step: ReceiveStep<T, C, D, K>,
    ) -> bool {
        cell@.receive_turned(cb, after@, step)
    }

    fn receive(self, cell: &mut FutureImpl<T, F, C, D, K>, cb: C) -> (r: ReceiveStep<T, C, D, K>) {
        FutureVal::receive(self, cell, cb)
    }
}

impl<T, F, C, D, K> SyncFuture<FutureImpl<T, F, C, D, K>> for FutureVal<T> where
    F: Fn(&FutureResult<T>) -> FutureResult<T>,
 {
    type Thread = K;

    type Step = TakeStep<T, D, K>;

    open spec fn may_take(&self, cell: FutureImpl<T, F, C, D, K>) -> bool {
        self.consumes(cell@)
    }

    open spec fn took(
        &self,
        cell: FutureImpl<T, F, C, D, K>,
        thread: K,
        after: FutureImpl<T, F, C, D, K>,
        step: TakeStep<T, D, K>,
    ) -> bool {
        cell@.take_turned(thread, after@, step)
    }

    fn take(self, cell: &mut FutureImpl<T, F, C, D, K>, thread: K) -> (r: TakeStep<T, D, K>) {
        FutureVal::take(self, cell, thread)
    }
}

impl<T> Producer<T> {
    /// The identity of the cell of the future.
    pub closed spec fn view(&self) -> int {
        self.id@
    }

    /// The producer of the future in the cell `id`.
    fn new(id: Ghost<int>) -> (r: Producer<T>)
        ensures
            r@ == id@,
    {
        Producer { id, token: core::marker::PhantomData }
    }

    /// Completes the future with a value. The result is what those that wait
    /// get.
    pub fn complete<F, C, D, K>(self, cell: &mut FutureImpl<T, F, C, D, K>, val: T) -> (r: Vec<
        Delivery<T, C, K>,
    >) where F: Fn(&FutureResult<T>) -> FutureResult<T>
        requires
            self.produces(old(cell)@),
        ensures
            final(cell)@.wf(),
            final(cell)@ == old(cell)@.completed(Ok(val)),
            old(cell)@.deliveries(Ok(val), r@),
    {
        Self::finish(cell, Ok(val))
    }

    /// Completes the future with an error. The result is what those that wait
    /// get.
    pub fn fail<F, C, D, K>(self, cell: &mut FutureImpl<T, F, C, D, K>, desc: &'static str) -> (r:
        Vec<Delivery<T, C, K>>) where F: Fn(&FutureResult<T>) -> FutureResult<T>
        requires
            self.produces(old(cell)@),
        ensures
            final(cell)@.wf(),
            final(cell)@ == old(cell)@.completed(Err(failure(desc))),
            old(cell)@.deliveries(Err(failure(desc)), r@),
    {
        Self::finish(cell, Err(FutureError { kind: FutureErrorKind::ExecutionError, desc }))
    }

    /// Gives the future up without completing it.
    pub fn discard<F, C, D, K>(self, cell: &mut FutureImpl<T, F, C, D, K>) -> (r: Vec<
        Delivery<T, C, K>,
    >) where F: Fn(&FutureResult<T>) -> FutureResult<T>
        requires
            self.produces(old(cell)@),
        ensures
            final(cell)@.wf(),
            final(cell)@ == old(cell)@.completed(
                Err(failure("producer dropped out of scope without completing")),
            ),
            old(cell)@.deliveries(
                Err(failure("producer dropped out of scope without completing")),
                r@,
            ),
    {
        self.fail(cell, "producer dropped out of scope without completing")
    }

    /// Whether this is the producer of the future in `cell`, and free to act.
    pub open spec fn produces<F, C, D, K>(&self, cell: FutureView<T, F, C, D, K>) -> bool where
        F: Fn(&FutureResult<T>) -> FutureResult<T>,
     {
        self@ == cell.id && cell.wf() && cell.has_producer()
    }

    /// One turn of having the function `cb` called once a consumer is interested, or all are
    /// gone.
    pub fn receive<F, C, D, K>(self, cell: &mut FutureImpl<T, F, C, D, K>, cb: D) -> (r: InterestStep<
        T,
        D,
    >) where F: Fn(&FutureResult<T>) -> FutureResult<T>
        requires
            self.produces(old(cell)@),
        ensures
            old(cell)@.interest_turned(cb, final(cell)@, r),
    {
        if cell.state.is_pending() {
            cell.state = State::ProducerWait(WaitStrategy::Callback(cb));
            return InterestStep::Registered(ProducerInterest);
        }
        if cell.state.is_canceled() {
            InterestStep::Invoke(cb, Err(cancelation()))
        } else {
            InterestStep::Invoke(cb, Ok(self))
        }
    }

    /// The first turn of waiting for the interest of the consumers with the thread `thread`.
    pub fn take<F, C, D, K>(self, cell: &mut FutureImpl<T, F, C, D, K>, thread: K) -> (r: InterestTake<
        T,
    >) where F: Fn(&FutureResult<T>) -> FutureResult<T>
        requires
            self.produces(old(cell)@),
        ensures
            old(cell)@.interest_taken(thread, final(cell)@, r),
    {
        if cell.state.is_pending() {
            cell.state = State::ProducerWait(WaitStrategy::Park(thread));
            return InterestTake::Park;
        }
        if cell.state.is_canceled() {
            InterestTake::Ready(Err(cancelation()))
        } else {
            InterestTake::Ready(Ok(self))
        }
    }

    /// Gives the future up with an error that says so. The result is what those that wait
    /// get.
    pub fn cancel<F, C, D, K>(self, cell: &mut FutureImpl<T, F, C, D, K>) -> (r: Vec<
        Delivery<T, C, K>,
    >) where F: Fn(&FutureResult<T>) -> FutureResult<T>
        requires
            self.produces(old(cell)@),
        ensures
            final(cell)@.wf(),
            final(cell)@ == old(cell)@.completed(Err(failure("canceled by producer"))),
            old(cell)@.deliveries(Err(failure("canceled by producer")), r@),
    {
        self.fail(cell, "canceled by producer")
    }

    /// Completes the future.
    fn finish<F, C, D, K>(cell: &mut FutureImpl<T, F, C, D, K>, val: FutureResult<T>) -> (r: Vec<
        Delivery<T, C, K>,
    >) where F: Fn(&FutureResult<T>) -> FutureResult<T>
        requires
            old(cell)@.wf(),
            old(cell)@.has_producer(),
        ensures
            final(cell)@.wf(),
            final(cell)@ == old(cell)@.completed(val),
            old(cell)@.deliveries(val, r@),
    {
        let mut r: Vec<Delivery<T, C, K>> = Vec::new();
        if cell.state.is_canceled() {
            return r;
        }
        cell.val = Some(val);
        let mut waiters = cell.take_consumer_wait();
        let ghost ws = waiters@;
        let ghost full = old(cell)@.realized(val);
        proof {
            assert(full.shared(0) =~= full);
            assert(ws.take(0) =~= Seq::<WaitStrategy<C, K>>::empty());
        }
        let mut i: usize = 0;
        while waiters.len() > 0
            invariant
                i + waiters@.len() == ws.len(),
                waiters@ == ws.skip(i as int),
                r@.len() == i,
                ws.len() <= old(cell)@.clones,
                callbacks(ws.take(i as int)) <= i,
                full == old(cell)@.realized(val),
                full.wf(),
                cell@.wf(),
                cell@ == full.shared(callbacks(ws.take(i as int))),
                forall|j: int|
                    0 <= j < i ==> old(cell)@.delivered(val, ws.take(j), ws[j], #[trigger] r@[j]),
            decreases waiters@.len(),
        {
            let waiter = waiters.remove(0);
            proof {
                assert(waiter == ws[i as int]);
                assert(ws.take(i + 1).drop_last() =~= ws.take(i as int));
                assert(ws.take(i + 1).last() == ws[i as int]);
            }
            match waiter {
                WaitStrategy::Callback(cb) => {
                    match cell.take_value() {
                        Some(v) => r.push(Delivery::Invoke(cb, v)),
                        None => {},
                    }
                },
                WaitStrategy::Park(thread) => {
                    r.push(Delivery::Unpark(thread));
                },
            }
            i += 1;
        }
        assert(ws.take(i as int) =~= ws);
        r
    }
}

impl<T, F, C, D, K> Future<FutureImpl<T, F, C, D, K>> for Producer<T> where
    F: Fn(&FutureResult<T>) -> FutureResult<T>,
 {
    type Callback = D;

    type Step = InterestStep<T, D>;

    open spec fn may_receive(&self, cell: FutureImpl<T, F, C, D, K>) -> bool {
        self.produces(cell@)
    }

    open spec fn received(
        &self,
        cell: FutureImpl<T, F, C, D, K>,
        cb: D,
        after: FutureImpl<T, F, C, D, K>,
        step: InterestStep<T, D>,
    ) -> bool {
        cell@.interest_turned(cb, after@, step)
    }

    fn receive(self, cell: &mut FutureImpl<T, F, C, D, K>, cb: D) -> (r: InterestStep<T, D>) {
        Producer::receive(self, cell, cb)
    }
}

impl<T, F, C, D, K> SyncFuture<FutureImpl<T, F, C, D, K>> for Producer<T> where
    F: Fn(&FutureResult<T>) -> FutureResult<T>,
 {
    type Thread = K;

    type Step = InterestTake<T>;

    open spec fn may_take(&self, cell: FutureImpl<T, F, C, D, K>) -> bool {
        self.produces(cell@)
    }

    open spec fn took(
        &self,
        cell: FutureImpl<T, F, C, D, K>,
        thread: K,
        after: FutureImpl<T, F, C, D, K>,
        step: InterestTake<T>,
    ) -> bool {
        cell@.interest_taken(thread, after@, step)
    }

    fn take(self, cell: &mut FutureImpl<T, F, C, D, K>, thread: K) -> (r: InterestTake<T>) {
        Producer::take(self, cell, thread)
    }
}

impl<T, F, C, D, K> Cancel<FutureImpl<T, F, C, D, K>> for Producer<T> where
    F: Fn(&FutureResult<T>) -> FutureResult<T>,
 {
    type Notice = Vec<Delivery<T, C, K>>;

    open spec fn may_cancel(&self, cell: FutureImpl<T, F, C, D, K>) -> bool {
        self.produces(cell@)
    }

    open spec fn canceled(
        &self,
        cell: FutureImpl<T, F, C, D, K>,
        after: FutureImpl<T, F, C, D, K>,
        notice: Vec<Delivery<T, C, K>>,
    ) -> bool {
        &&& after@.wf()
        &&& after@ == cell@.completed(Err(failure("canceled by producer")))
        &&& cell@.deliveries(Err(failure("canceled by producer")), notice@)
    }

    fn cancel(self, cell: &mut FutureImpl<T, F, C, D, K>) -> (r: Vec<Delivery<T, C, K>>) {
        Producer::cancel(self, cell)
    }
}

/// The error of a producer that failed.
pub open spec fn failure(desc: &'static str) -> FutureError {
    FutureError { kind: FutureErrorKind::ExecutionError, desc }
}

/// A future: its cell, its consumer and its producer.
pub fn future<T, F, C, D, K>() -> (r: (FutureImpl<T, F, C, D, K>, FutureVal<T>, Producer<T>)) where
    F: Fn(&FutureResult<T>) -> FutureResult<T>,

    ensures
        r.0@.wf(),
        r.1@ == r.0@.id,
        r.2@ == r.0@.id,
        r.0@ == (FutureView::<T, F, C, D, K> {
            id: r.0@.id,
            val: None,
            state: Phase::Pending,
            clones: 1,
            cloner: None,
        }),
        r.0@.has_consumer(),
        r.0@.has_producer(),
{
    let cell = FutureImpl::new();
    let consumer = FutureVal::new(Ghost(cell@.id));
    let producer = Producer::new(Ghost(cell@.id));
    (cell, consumer, producer)
}

} // verus!
