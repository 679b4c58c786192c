//! The packed state word of an asynchronous value.
//!
//! One machine word holds the lifecycle of the value, two flags that say
//! whether a consumer or a producer callback is running, and the number of
//! handles to the value.
use crate::util::atomic::ToAtomicRepr;
use vstd::prelude::*;

verus! {

/// The bits of the word that hold the lifecycle.
pub const LIFECYCLE_MASK: usize = 15;

/// The bit that is set while a consumer callback runs.
pub const CONSUMING_MASK: usize = 16;

/// The bit that is set while a producer callback runs.
pub const PRODUCING_MASK: usize = 32;

/// The first bit of the reference count.
pub const REF_COUNT_OFFSET: usize = 6;

/// One reference, as it stands in the word.
pub const REF_ONE: usize = 64;

/// Where an asynchronous value stands between its producer and its consumer.
#[derive(Debug, Clone, Copy, PartialEq, Eq, Structural)]
pub enum Lifecycle {
    /// Neither realized, nor has the consumer or the producer registered
    /// interest.
    New,
    /// The consumer has registered interest in the value.
    ConsumerWait,
    /// The producer has registered interest, the consumer has not yet.
    ProducerWait,
    /// A value has been provided and not been consumed.
    Ready,
    /// A value has been provided and the producer is waiting again.
    ReadyProducerWait,
    /// The producer callback is to be called again once the current one
    /// returns.
    ProducerNotify,
    /// As `ProducerNotify`, and the consumer has canceled.
    ProducerNotifyCanceled,
    /// The consumer callback is to be called again once the current one
    /// returns.
    ConsumerNotify,
    /// The consumer has canceled. This is final.
    Canceled,
}

impl Lifecycle {
    /// The number that stands for the lifecycle in the state word.
    pub open spec fn code(self) -> usize {
        match self {
            Lifecycle::New => 0,
            Lifecycle::ConsumerWait => 1,
            Lifecycle::ProducerWait => 2,
            Lifecycle::Ready => 3,
            Lifecycle::ReadyProducerWait => 4,
            Lifecycle::ProducerNotify => 5,
            Lifecycle::ProducerNotifyCanceled => 6,
            Lifecycle::ConsumerNotify => 7,
            Lifecycle::Canceled => 8,
        }
    }

    /// The lifecycle that a number stands for.
    pub open spec fn of_code(code: usize) -> Option<Lifecycle> {
        match code {
            0 => Some(Lifecycle::New),
            1 => Some(Lifecycle::ConsumerWait),
            2 => Some(Lifecycle::ProducerWait),
            3 => Some(Lifecycle::Ready),
            4 => Some(Lifecycle::ReadyProducerWait),
            5 => Some(Lifecycle::ProducerNotify),
            6 => Some(Lifecycle::ProducerNotifyCanceled),
            7 => Some(Lifecycle::ConsumerNotify),
            8 => Some(Lifecycle::Canceled),
            _ => None,
        }
    }

    /// Whether a value is stored in this lifecycle.
    pub open spec fn holds_value(self) -> bool {
        self is Ready || self is ReadyProducerWait || self is ConsumerNotify
    }

    /// Whether the consumer has asked for the value and not got it.
    pub open spec fn consumer_pending(self) -> bool {
        self is ConsumerWait || self is ConsumerNotify || self is ProducerNotify
    }

    /// Whether the producer has asked to be told of the consumer's interest.
    pub open spec fn producer_pending(self) -> bool {
        self is ProducerWait || self is ReadyProducerWait || self is ProducerNotify
            || self is ProducerNotifyCanceled
    }

    /// The number that stands for the lifecycle in the state word.
    pub fn as_usize(self) -> (r: usize)
        ensures
            r == self.code(),
    {
        match self {
            Lifecycle::New => 0,
            Lifecycle::ConsumerWait => 1,
            Lifecycle::ProducerWait => 2,
            Lifecycle::Ready => 3,
            Lifecycle::ReadyProducerWait => 4,
            Lifecycle::ProducerNotify => 5,
            Lifecycle::ProducerNotifyCanceled => 6,
            Lifecycle::ConsumerNotify => 7,
            Lifecycle::Canceled => 8,
        }
    }

    /// The lifecycle that a number stands for, if there is one.
    pub fn from_usize(val: usize) -> (r: Option<Lifecycle>)
        ensures
            r == Lifecycle::of_code(val),
    {
        match val {
            0 => Some(Lifecycle::New),
            1 => Some(Lifecycle::ConsumerWait),
            2 => Some(Lifecycle::ProducerWait),
            3 => Some(Lifecycle::Ready),
            4 => Some(Lifecycle::ReadyProducerWait),
            5 => Some(Lifecycle::ProducerNotify),
            6 => Some(Lifecycle::ProducerNotifyCanceled),
            7 => Some(Lifecycle::ConsumerNotify),
            8 => Some(Lifecycle::Canceled),
            _ => None,
        }
    }
}

/// What the state word says.
pub ghost struct StateView {
    pub lifecycle: Lifecycle,
    pub consuming: bool,
    pub producing: bool,
    pub refs: nat,
}

/// The state word.
#[derive(Debug, Clone, Copy, PartialEq, Eq, Structural)]
pub struct State {
    val: usize,
}

/// The largest number of handles that the word can count.
pub open spec fn max_refs() -> nat {
    usize::MAX as nat / 64
}

/// The largest number of handles is a word of ones in the bits of the counter.
proof fn lemma_max_refs()
    ensures
        max_refs() == (!0usize >> REF_COUNT_OFFSET),
{
    assert((!0usize >> 6usize) == !0usize / 64usize) by (bit_vector);
    let greatest = usize::MAX;
    assert(greatest <= !0usize) by (bit_vector);
}

/// Whether the low bits of `val` name a lifecycle.
pub open spec fn valid_word(val: usize) -> bool {
    (val & LIFECYCLE_MASK) <= 8
}

proof fn lemma_set_lifecycle(val: usize, code: usize)
    requires
        code <= 8,
    ensures
        ((val & !LIFECYCLE_MASK) | code) & LIFECYCLE_MASK == code,
        ((val & !LIFECYCLE_MASK) | code) & CONSUMING_MASK == val & CONSUMING_MASK,
        ((val & !LIFECYCLE_MASK) | code) & PRODUCING_MASK == val & PRODUCING_MASK,
        ((val & !LIFECYCLE_MASK) | code) >> REF_COUNT_OFFSET == val >> REF_COUNT_OFFSET,
{
    let w = (val & !15usize) | code;
    assert(w & 15usize == code && w & 16usize == val & 16usize && w & 32usize == val & 32usize && w
        >> 6usize == val >> 6usize) by (bit_vector)
        requires
            w == (val & !15usize) | code,
            code <= 8,
    ;
}

proof fn lemma_set_consuming(val: usize)
    ensures
        (val | CONSUMING_MASK) & LIFECYCLE_MASK == val & LIFECYCLE_MASK,
        (val | CONSUMING_MASK) & CONSUMING_MASK == CONSUMING_MASK,
        (val | CONSUMING_MASK) & PRODUCING_MASK == val & PRODUCING_MASK,
        (val | CONSUMING_MASK) >> REF_COUNT_OFFSET == val >> REF_COUNT_OFFSET,
{
    let w = val | 16usize;
    assert(w & 15usize == val & 15usize && w & 16usize == 16usize && w & 32usize == val & 32usize
        && w >> 6usize == val >> 6usize) by (bit_vector)
        requires
            w == val | 16usize,
    ;
}

proof fn lemma_set_producing(val: usize)
    ensures
        (val | PRODUCING_MASK) & LIFECYCLE_MASK == val & LIFECYCLE_MASK,
        (val | PRODUCING_MASK) & CONSUMING_MASK == val & CONSUMING_MASK,
        (val | PRODUCING_MASK) & PRODUCING_MASK == PRODUCING_MASK,
        (val | PRODUCING_MASK) >> REF_COUNT_OFFSET == val >> REF_COUNT_OFFSET,
{
    let w = val | 32usize;
    assert(w & 15usize == val & 15usize && w & 16usize == val & 16usize && w & 32usize == 32usize
        && w >> 6usize == val >> 6usize) by (bit_vector)
        requires
            w == val | 32usize,
    ;
}

proof fn lemma_clear_consuming(val: usize)
    requires
        val & CONSUMING_MASK == CONSUMING_MASK,
    ensures
        val >= CONSUMING_MASK,
        ((val - CONSUMING_MASK) as usize) & LIFECYCLE_MASK == val & LIFECYCLE_MASK,
        ((val - CONSUMING_MASK) as usize) & CONSUMING_MASK == 0,
        ((val - CONSUMING_MASK) as usize) & PRODUCING_MASK == val & PRODUCING_MASK,
        ((val - CONSUMING_MASK) as usize) >> REF_COUNT_OFFSET == val >> REF_COUNT_OFFSET,
{
    assert(val >= 16usize) by (bit_vector)
        requires
            val & 16usize == 16usize,
    ;
    let w = (val - 16usize) as usize;
    assert(w & 15usize == val & 15usize && w & 16usize == 0usize && w & 32usize == val & 32usize
        && w >> 6usize == val >> 6usize) by (bit_vector)
        requires
            w == val - 16usize,
            val & 16usize == 16usize,
    ;
}

proof fn lemma_clear_producing(val: usize)
    requires
        val & PRODUCING_MASK == PRODUCING_MASK,
    ensures
        val >= PRODUCING_MASK,
        ((val - PRODUCING_MASK) as usize) & LIFECYCLE_MASK == val & LIFECYCLE_MASK,
        ((val - PRODUCING_MASK) as usize) & CONSUMING_MASK == val & CONSUMING_MASK,
        ((val - PRODUCING_MASK) as usize) & PRODUCING_MASK == 0,
        ((val - PRODUCING_MASK) as usize) >> REF_COUNT_OFFSET == val >> REF_COUNT_OFFSET,
{
    assert(val >= 32usize) by (bit_vector)
        requires
            val & 32usize == 32usize,
    ;
    let w = (val - 32usize) as usize;
    assert(w & 15usize == val & 15usize && w & 16usize == val & 16usize && w & 32usize == 0usize
        && w >> 6usize == val >> 6usize) by (bit_vector)
        requires
            w == val - 32usize,
            val & 32usize == 32usize,
    ;
}

proof fn lemma_add_ref(val: usize)
    requires
        (val >> REF_COUNT_OFFSET) < (!0usize >> REF_COUNT_OFFSET),
    ensures
        val + REF_ONE <= usize::MAX,
        ((val + REF_ONE) as usize) & LIFECYCLE_MASK == val & LIFECYCLE_MASK,
        ((val + REF_ONE) as usize) & CONSUMING_MASK == val & CONSUMING_MASK,
        ((val + REF_ONE) as usize) & PRODUCING_MASK == val & PRODUCING_MASK,
        ((val + REF_ONE) as usize) >> REF_COUNT_OFFSET == (val >> REF_COUNT_OFFSET) + 1,
{
    assert(val + 64usize <= !0usize) by (bit_vector)
        requires
            (val >> 6usize) < (!0usize >> 6usize),
    ;
    let w = (val + 64usize) as usize;
    assert(w & 15usize == val & 15usize && w & 16usize == val & 16usize && w & 32usize == val
        & 32usize && w >> 6usize == (val >> 6usize) + 1) by (bit_vector)
        requires
            w == val + 64usize,
    ;
}

proof fn lemma_sub_ref(val: usize)
    requires
        (val >> REF_COUNT_OFFSET) >= 1,
    ensures
        val >= REF_ONE,
        ((val - REF_ONE) as usize) & LIFECYCLE_MASK == val & LIFECYCLE_MASK,
        ((val - REF_ONE) as usize) & CONSUMING_MASK == val & CONSUMING_MASK,
        ((val - REF_ONE) as usize) & PRODUCING_MASK == val & PRODUCING_MASK,
        ((val - REF_ONE) as usize) >> REF_COUNT_OFFSET == (val >> REF_COUNT_OFFSET) - 1,
{
    assert(val >= 64usize) by (bit_vector)
        requires
            (val >> 6usize) >= 1,
    ;
    let w = (val - 64usize) as usize;
    assert(w & 15usize == val & 15usize && w & 16usize == val & 16usize && w & 32usize == val
        & 32usize && w >> 6usize == (val >> 6usize) - 1) by (bit_vector)
        requires
            w == val - 64usize,
            (val >> 6usize) >= 1,
    ;
}

impl State {
    /// Whether the word names a lifecycle.
    pub closed spec fn wf(self) -> bool {
        valid_word(self.val)
    }

    /// The word itself.
    pub closed spec fn word(self) -> usize {
        self.val
    }

    /// What the word says.
    pub closed spec fn view(&self) -> StateView {
        StateView {
            lifecycle: Lifecycle::of_code(self.val & LIFECYCLE_MASK)->0,
            consuming: self.val & CONSUMING_MASK == CONSUMING_MASK,
            producing: self.val & PRODUCING_MASK == PRODUCING_MASK,
            refs: (self.val >> REF_COUNT_OFFSET) as nat,
        }
    }

    /// A fresh value with one handle.
    pub fn new() -> (r: State)
        ensures
            r.wf(),
            r@ == (StateView {
                lifecycle: Lifecycle::New,
                consuming: false,
                producing: false,
                refs: 1,
            }),
    {
        proof {
            assert(64usize & 15usize == 0usize && 64usize & 16usize == 0usize && 64usize & 32usize
                == 0usize && 64usize >> 6usize == 1usize) by (bit_vector);
        }
        State { val: REF_ONE }
    }

    /// The state that a word holds.
    pub fn load(val: usize) -> (r: State)
        requires
            valid_word(val),
        ensures
            r.wf(),
            r.word() == val,
    {
        State { val }
    }

    /// The state once the consumer callback has returned.
    pub fn without_consuming(&self) -> (r: State)
        requires
            self@.consuming,
        ensures
            r.wf() == self.wf(),
            r@ == (StateView { consuming: false, ..self@ }),
    {
        proof {
            lemma_clear_consuming(self.val);
        }
        State { val: self.val - CONSUMING_MASK }
    }

    /// The state once the producer callback has returned.
    pub fn without_producing(&self) -> (r: State)
        requires
            self@.producing,
        ensures
            r.wf() == self.wf(),
            r@ == (StateView { producing: false, ..self@ }),
    {
        proof {
            lemma_clear_producing(self.val);
        }
        State { val: self.val - PRODUCING_MASK }
    }

    /// The state with one handle more.
    pub fn ref_inc(&self) -> (r: State)
        requires
            self@.refs < max_refs(),
        ensures
            r.wf() == self.wf(),
            r@ == (StateView { refs: self@.refs + 1, ..self@ }),
    {
        proof {
            lemma_max_refs();
            lemma_add_ref(self.val);
        }
        State { val: self.val + REF_ONE }
    }

    /// The state with one handle less.
    pub fn ref_dec(&self) -> (r: State)
        requires
            self@.refs >= 1,
        ensures
            r.wf() == self.wf(),
            r@ == (StateView { refs: (self@.refs - 1) as nat, ..self@ }),
    {
        proof {
            lemma_sub_ref(self.val);
        }
        State { val: self.val - REF_ONE }
    }

    /// The number of handles.
    pub fn ref_count(&self) -> (r: usize)
        ensures
            r == self@.refs,
    {
        self.val >> REF_COUNT_OFFSET
    }

    /// The lifecycle.
    pub fn lifecycle(&self) -> (r: Lifecycle)
        requires
            self.wf(),
        ensures
            r == self@.lifecycle,
    {
        match Lifecycle::from_usize(self.val & LIFECYCLE_MASK) {
            Some(l) => l,
            None => {
                assert(false);
                Lifecycle::New
            },
        }
    }

    /// The state with another lifecycle.
    pub fn with_lifecycle(&self, val: Lifecycle) -> (r: State)
        ensures
            r.wf(),
            r@ == (StateView { lifecycle: val, ..self@ }),
    {
        proof {
            lemma_set_lifecycle(self.val, val.code());
        }
        State { val: (self.val & !LIFECYCLE_MASK) | val.as_usize() }
    }

    /// The state while a consumer callback runs.
    pub fn with_consuming(&self) -> (r: State)
        ensures
            r.wf() == self.wf(),
            r@ == (StateView { consuming: true, ..self@ }),
    {
        proof {
            lemma_set_consuming(self.val);
        }
        State { val: self.val | CONSUMING_MASK }
    }

    /// The state while a producer callback runs.
    pub fn with_producing(&self) -> (r: State)
        ensures
            r.wf() == self.wf(),
            r@ == (StateView { producing: true, ..self@ }),
    {
        proof {
            lemma_set_producing(self.val);
        }
        State { val: self.val | PRODUCING_MASK }
    }

    /// Whether a consumer callback runs.
    pub fn is_consuming(&self) -> (r: bool)
        ensures
            r == self@.consuming,
    {
        self.val & CONSUMING_MASK == CONSUMING_MASK
    }

    /// Whether a producer callback runs.
    pub fn is_producing(&self) -> (r: bool)
        ensures
            r == self@.producing,
    {
        self.val & PRODUCING_MASK == PRODUCING_MASK
    }

    /// Whether the consumer waits for a value.
    pub fn is_consumer_wait(&self) -> (r: bool)
        requires
            self.wf(),
        ensures
            r == (self@.lifecycle is ConsumerWait),
    {
        match self.lifecycle() {
            Lifecycle::ConsumerWait => true,
            _ => false,
        }
    }

    /// Whether a value can be consumed.
    pub fn is_ready(&self) -> (r: bool)
        requires
            self.wf(),
        ensures
            r == (self@.lifecycle is Ready || self@.lifecycle is ReadyProducerWait),
    {
        match self.lifecycle() {
            Lifecycle::Ready | Lifecycle::ReadyProducerWait => true,
            _ => false,
        }
    }

    /// Whether the producer need not wait for the consumer.
    pub fn is_producer_ready(&self) -> (r: bool)
        requires
            self.wf(),
        ensures
            r == (self@.lifecycle is ConsumerWait || self@.lifecycle is Ready
                || self@.lifecycle is ReadyProducerWait || self@.lifecycle is Canceled),
    {
        self.is_consumer_wait() || self.is_ready() || self.is_canceled()
    }

    /// Whether the consumer has canceled.
    pub fn is_canceled(&self) -> (r: bool)
        requires
            self.wf(),
        ensures
            r == (self@.lifecycle is Canceled),
    {
        match self.lifecycle() {
            Lifecycle::Canceled => true,
            _ => false,
        }
    }

    /// Whether a consumer callback has been put off.
    pub fn is_consumer_notify(&self) -> (r: bool)
        requires
            self.wf(),
        ensures
            r == (self@.lifecycle is ConsumerNotify),
    {
        match self.lifecycle() {
            Lifecycle::ConsumerNotify => true,
            _ => false,
        }
    }

    /// Whether a producer callback has been put off.
    pub fn is_producer_notify(&self) -> (r: bool)
        requires
            self.wf(),
        ensures
            r == (self@.lifecycle is ProducerNotify || self@.lifecycle is ProducerNotifyCanceled),
    {
        match self.lifecycle() {
            Lifecycle::ProducerNotify | Lifecycle::ProducerNotifyCanceled => true,
            _ => false,
        }
    }

    /// The word itself.
    pub fn as_usize(self) -> (r: usize)
        ensures
            r == self.word(),
            self.wf() == valid_word(r),
    {
        self.val
    }
}

/// A state is stored by its word.
impl ToAtomicRepr for State {
    type Repr = usize;

    open spec fn storable(&self) -> bool {
        self.wf()
    }

    open spec fn repr(&self) -> usize {
        self.word()
    }

    fn from_repr(raw: usize) -> (r: State) {
        State::load(raw)
    }

    fn to_repr(self) -> (r: usize) {
        self.as_usize()
    }

    proof fn lemma_repr_tells_apart(a: State, b: State) {
    }
}

/// A lifecycle is read back from the number that stands for it, and no other number stands for one.
pub proof fn law_lifecycles_are_numbered(
    l: Lifecycle,
    num: usize,
    back: Option<Lifecycle>,
    other: usize,
    read: Option<Lifecycle>,
)
    requires
        call_ensures(Lifecycle::as_usize, (l,), num),
        call_ensures(Lifecycle::from_usize, (num,), back),
        call_ensures(Lifecycle::from_usize, (other,), read),
    ensures
        back == Some(l),
        num <= 8,
        read is Some <==> other <= 8,
        read == Some(l) ==> other == num,
{
}

/// The parts of the state word are changed apart: each of these steps changes what it says and keeps
/// the rest.
pub proof fn law_parts_of_the_word_are_kept_apart(
    s: State,
    l: Lifecycle,
    moved: State,
    consuming: State,
    producing: State,
    more: State,
)
    requires
        s.wf(),
        call_ensures(State::with_lifecycle, (&s, l), moved),
        call_ensures(State::with_consuming, (&s,), consuming),
        call_ensures(State::with_producing, (&s,), producing),
        call_ensures(State::ref_inc, (&s,), more),
    ensures
        moved@.lifecycle == l && moved@.consuming == s@.consuming && moved@.producing
            == s@.producing && moved@.refs == s@.refs,
        consuming@.consuming && consuming@.lifecycle == s@.lifecycle && consuming@.producing
            == s@.producing && consuming@.refs == s@.refs,
        producing@.producing && producing@.lifecycle == s@.lifecycle && producing@.consuming
            == s@.consuming && producing@.refs == s@.refs,
        more@.refs == s@.refs + 1 && more@.lifecycle == s@.lifecycle && more@.consuming
            == s@.consuming && more@.producing == s@.producing,
        moved.wf() && consuming.wf() && producing.wf() && more.wf(),
{
}

/// Each of these steps is undone by its counterpart.
pub proof fn law_steps_on_the_word_are_undone(
    s: State,
    consuming: State,
    consumed: State,
    producing: State,
    produced: State,
    more: State,
    less: State,
)
    requires
        call_ensures(State::with_consuming, (&s,), consuming),
        call_ensures(State::without_consuming, (&consuming,), consumed),
        call_ensures(State::with_producing, (&s,), producing),
        call_ensures(State::without_producing, (&producing,), produced),
        call_ensures(State::ref_inc, (&s,), more),
        call_ensures(State::ref_dec, (&more,), less),
    ensures
        !s@.consuming ==> consumed@ == s@,
        !s@.producing ==> produced@ == s@,
        less@ == s@,
        !consumed@.consuming && !produced@.producing,
{
}

/// What the state word is asked for is what it says.
pub proof fn law_word_says_what_it_is_asked(
    s: State,
    refs: usize,
    l: Lifecycle,
    consuming: bool,
    producing: bool,
    consumer_wait: bool,
    ready: bool,
    producer_ready: bool,
    canceled: bool,
    consumer_notify: bool,
    producer_notify: bool,
)
    requires
        s.wf(),
        call_ensures(State::ref_count, (&s,), refs),
        call_ensures(State::lifecycle, (&s,), l),
        call_ensures(State::is_consuming, (&s,), consuming),
        call_ensures(State::is_producing, (&s,), producing),
        call_ensures(State::is_consumer_wait, (&s,), consumer_wait),
        call_ensures(State::is_ready, (&s,), ready),
        call_ensures(State::is_producer_ready, (&s,), producer_ready),
        call_ensures(State::is_canceled, (&s,), canceled),
        call_ensures(State::is_consumer_notify, (&s,), consumer_notify),
        call_ensures(State::is_producer_notify, (&s,), producer_notify),
    ensures
        refs == s@.refs && l == s@.lifecycle && consuming == s@.consuming && producing
            == s@.producing,
        consumer_wait <==> l is ConsumerWait,
        ready <==> l is Ready || l is ReadyProducerWait,
        canceled <==> l is Canceled,
        producer_ready <==> consumer_wait || ready || canceled,
        consumer_notify <==> l is ConsumerNotify,
        producer_notify <==> l is ProducerNotify || l is ProducerNotifyCanceled,
{
}

/// A state word that is written out and read back is the same, and a new one is that of a fresh value
/// with one handle.
pub proof fn law_word_round_trip(s: State, word: usize, back: State, fresh: State)
    requires
        s.wf(),
        call_ensures(State::as_usize, (s,), word),
        call_ensures(State::load, (word,), back),
        call_ensures(State::new, (), fresh),
    ensures
        back == s,
        fresh@.lifecycle is New && !fresh@.consuming && !fresh@.producing && fresh@.refs == 1,
{
}

} // verus!
