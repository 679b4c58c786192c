//! Boxes whose operations are indivisible.
//!
//! A box is the content of one memory cell. The operations are the steps that the
//! machine takes on such a cell as a whole, one after the other.
use vstd::prelude::*;

verus! {

/// How an operation is ordered with respect to those on other cells.
#[derive(Clone, Copy, Debug, PartialEq, Eq, Structural)]
pub enum Order {
    Relaxed,
    Release,
    Acquire,
    AcqRel,
    SeqCst,
}

/// The orderings that a load may have.
pub open spec fn loads(order: Order) -> bool {
    !(order is Release) && !(order is AcqRel)
}

/// The orderings that a store may have.
pub open spec fn stores(order: Order) -> bool {
    !(order is Acquire) && !(order is AcqRel)
}

/// An atomic box.
pub trait Atomic<T>: Sized {
    /// The invariant of the box.
    spec fn wf(&self) -> bool;

    /// The value in the box.
    spec fn value(&self) -> T;

    /// Whether the value may be put into a box of this kind.
    spec fn admits(val: T) -> bool;

    /// Returns a new atomic box.
    fn new(val: T) -> (r: Self)
        requires
            Self::admits(val),
        ensures
            r.wf(),
            r.value() == val,
    ;

    /// Atomically loads the value from the box with the given ordering.
    fn load(&self, order: Order) -> (r: T)
        requires
            self.wf(),
            loads(order),
        ensures
            r == self.value(),
            Self::admits(r),
    ;

    /// Atomically stores the value in the box with the given ordering.
    fn store(&mut self, val: T, order: Order)
        requires
            old(self).wf(),
            Self::admits(val),
            stores(order),
        ensures
            final(self).wf(),
            final(self).value() == val,
    ;

    /// Atomically swaps the value in the box with the given ordering.
    fn swap(&mut self, val: T, order: Order) -> (r: T)
        requires
            old(self).wf(),
            Self::admits(val),
        ensures
            final(self).wf(),
            final(self).value() == val,
            r == old(self).value(),
            Self::admits(r),
    ;

    /// Swaps the value in the box if and only if the existing value is equal to
    /// `expect`. Returns the existing value.
    fn compare_and_swap(&mut self, expect: T, new: T, order: Order) -> (r: T)
        requires
            old(self).wf(),
            Self::admits(expect),
            Self::admits(new),
        ensures
            final(self).wf(),
            final(self).value() == (if old(self).value() == expect {
                new
            } else {
                old(self).value()
            }),
            r == old(self).value(),
            Self::admits(r),
    ;
}

/// A value that can be stored in an atomic box.
pub trait ToAtomicRepr: Sized {
    /// The representation of the value when stored in an atomic box.
    type Repr;

    /// Whether the value has a representation.
    spec fn storable(&self) -> bool;

    /// The representation.
    spec fn repr(&self) -> Self::Repr;

    /// Load the value from the raw representation.
    fn from_repr(raw: Self::Repr) -> (r: Self)
        requires
            exists|t: Self| t.storable() && #[trigger] t.repr() == raw,
        ensures
            r.storable(),
            r.repr() == raw,
    ;

    /// Convert the value to the raw representation.
    fn to_repr(self) -> (r: Self::Repr)
        requires
            self.storable(),
        ensures
            r == self.repr(),
    ;

    /// Values with the same representation are the same.
    proof fn lemma_repr_tells_apart(a: Self, b: Self)
        requires
            a.storable(),
            b.storable(),
            a.repr() == b.repr(),
        ensures
            a == b,
    ;
}

/// An atomic box of values that are stored by their representation.
pub struct AtomicVal<T: ToAtomicRepr, A: Atomic<T::Repr>> {
    atomic: A,
    kind: core::marker::PhantomData<T>,
}

impl<T: ToAtomicRepr, A: Atomic<T::Repr>> AtomicVal<T, A> {
    /// The box holds the representation of `val`.
    spec fn holds(&self, val: T) -> bool {
        val.storable() && val.repr() == self.atomic.value() && A::admits(val.repr())
    }

    /// Returns a new atomic box.
    pub fn new(init: T) -> (r: AtomicVal<T, A>)
        requires
            init.storable(),
            A::admits(init.repr()),
        ensures
            r.wf(),
            r.value() == init,
    {
        let r = AtomicVal { atomic: A::new(init.to_repr()), kind: core::marker::PhantomData };
        assert(r.holds(init));
        proof {
            T::lemma_repr_tells_apart(r.value(), init);
        }
        r
    }
}

impl<T: ToAtomicRepr, A: Atomic<T::Repr>> Atomic<T> for AtomicVal<T, A> {
    closed spec fn wf(&self) -> bool {
        self.atomic.wf() && exists|val: T| self.holds(val)
    }

    closed spec fn value(&self) -> T {
        choose|val: T| self.holds(val)
    }

    open spec fn admits(val: T) -> bool {
        val.storable() && A::admits(val.repr())
    }

    fn new(val: T) -> (r: AtomicVal<T, A>) {
        AtomicVal::<T, A>::new(val)
    }

    fn load(&self, order: Order) -> (r: T) {
        let repr = self.atomic.load(order);
        assert(self.holds(self.value()));
        let r = T::from_repr(repr);
        proof {
            T::lemma_repr_tells_apart(r, self.value());
        }
        r
    }

    fn store(&mut self, val: T, order: Order) {
        self.atomic.store(val.to_repr(), order);
        assert(self.holds(val));
        proof {
            T::lemma_repr_tells_apart(self.value(), val);
        }
    }

    fn swap(&mut self, val: T, order: Order) -> (r: T) {
        assert(self.holds(self.value()));
        let repr = self.atomic.swap(val.to_repr(), order);
        assert(self.holds(val));
        let r = T::from_repr(repr);
        proof {
            T::lemma_repr_tells_apart(self.value(), val);
            T::lemma_repr_tells_apart(r, old(self).value());
        }
        r
    }

    fn compare_and_swap(&mut self, expect: T, new: T, order: Order) -> (r: T) {
        assert(self.holds(self.value()));
        let repr = self.atomic.compare_and_swap(expect.to_repr(), new.to_repr(), order);
        proof {
            if old(self).value().repr() == expect.repr() {
                T::lemma_repr_tells_apart(old(self).value(), expect);
                assert(self.holds(new));
                T::lemma_repr_tells_apart(self.value(), new);
            } else {
                assert(self.holds(old(self).value()));
                T::lemma_repr_tells_apart(self.value(), old(self).value());
            }
        }
        let r = T::from_repr(repr);
        proof {
            T::lemma_repr_tells_apart(r, old(self).value());
        }
        r
    }
}

/// An atomic box of a `usize`.
#[derive(Debug)]
pub struct AtomicUsize {
    v: usize,
}

impl Atomic<usize> for AtomicUsize {
    open spec fn wf(&self) -> bool {
        true
    }

    closed spec fn value(&self) -> usize {
        self.v
    }

    open spec fn admits(val: usize) -> bool {
        true
    }

    fn new(val: usize) -> (r: AtomicUsize) {
        AtomicUsize { v: val }
    }

    fn load(&self, order: Order) -> (r: usize) {
        self.v
    }

    fn store(&mut self, val: usize, order: Order) {
        self.v = val;
    }

    fn swap(&mut self, val: usize, order: Order) -> (r: usize) {
        let prev: usize = self.v;
        self.v = val;
        prev
    }

    fn compare_and_swap(&mut self, expect: usize, new: usize, order: Order) -> (r: usize) {
        let prev: usize = self.v;
        if prev == expect {
            self.v = new;
        }
        prev
    }
}

/// An atomic box of a `u64`.
#[derive(Debug)]
pub struct AtomicU64 {
    v: u64,
}

impl AtomicU64 {
    /// The value in the box.
    pub closed spec fn view(&self) -> u64 {
        self.v
    }

    /// Returns a new atomic box.
    pub fn new(v: u64) -> (r: AtomicU64)
        ensures
            r@ == v,
    {
        AtomicU64 { v }
    }

    /// Loads the value.
    pub fn load(&self, order: Order) -> (r: u64)
        requires
            loads(order),
        ensures
            r == self@,
    {
        self.v
    }

    /// Stores a value.
    pub fn store(&mut self, val: u64, order: Order)
        requires
            stores(order),
        ensures
            final(self)@ == val,
    {
        self.v = val;
    }

    /// Stores a value and returns the one before it.
    pub fn swap(&mut self, val: u64, order: Order) -> (r: u64)
        ensures
            final(self)@ == val,
            r == old(self)@,
    {
        let prev: u64 = self.v;
        self.v = val;
        prev
    }

    /// Stores `new` if the value is `expect`. Returns the value before it.
    pub fn compare_and_swap(&mut self, expect: u64, new: u64, order: Order) -> (r: u64)
        ensures
            final(self)@ == (if old(self)@ == expect {
                new
            } else {
                old(self)@
            }),
            r == old(self)@,
    {
        let prev: u64 = self.v;
        if prev == expect {
            self.v = new;
        }
        prev
    }

    /// Adds to the value, wrapping around at the boundary of the type.
    /// Returns the value before it.
    pub fn fetch_add(&mut self, val: u64, order: Order) -> (r: u64)
        ensures
            final(self)@ == old(self)@.wrapping_add(val),
            r == old(self)@,
    {
        let prev: u64 = self.v;
        self.v = self.v.wrapping_add(val);
        prev
    }

    /// Subtracts from the value, wrapping around at the boundary of the type.
    /// Returns the value before it.
    pub fn fetch_sub(&mut self, val: u64, order: Order) -> (r: u64)
        ensures
            final(self)@ == old(self)@.wrapping_sub(val),
            r == old(self)@,
    {
        let prev: u64 = self.v;
        self.v = self.v.wrapping_sub(val);
        prev
    }

    /// Takes the bitwise "and" of the value.
    /// Returns the value before it.
    pub fn fetch_and(&mut self, val: u64, order: Order) -> (r: u64)
        ensures
            final(self)@ == old(self)@ & val,
            r == old(self)@,
    {
        let prev: u64 = self.v;
        self.v = self.v & val;
        prev
    }

    /// Takes the bitwise "or" of the value.
    /// Returns the value before it.
    pub fn fetch_or(&mut self, val: u64, order: Order) -> (r: u64)
        ensures
            final(self)@ == old(self)@ | val,
            r == old(self)@,
    {
        let prev: u64 = self.v;
        self.v = self.v | val;
        prev
    }

    /// Takes the bitwise "xor" of the value.
    /// Returns the value before it.
    pub fn fetch_xor(&mut self, val: u64, order: Order) -> (r: u64)
        ensures
            final(self)@ == old(self)@ ^ val,
            r == old(self)@,
    {
        let prev: u64 = self.v;
        self.v = self.v ^ val;
        prev
    }
}

/// An atomic box of an `i64`.
#[derive(Debug)]
pub struct AtomicI64 {
    v: i64,
}

impl AtomicI64 {
    /// The value in the box.
    pub closed spec fn view(&self) -> i64 {
        self.v
    }

    /// Returns a new atomic box.
    pub fn new(v: i64) -> (r: AtomicI64)
        ensures
            r@ == v,
    {
        AtomicI64 { v }
    }

    /// Loads the value.
    pub fn load(&self, order: Order) -> (r: i64)
        requires
            loads(order),
        ensures
            r == self@,
    {
        self.v
    }

    /// Stores a value.
    pub fn store(&mut self, val: i64, order: Order)
        requires
            stores(order),
        ensures
            final(self)@ == val,
    {
        self.v = val;
    }

    /// Stores a value and returns the one before it.
    pub fn swap(&mut self, val: i64, order: Order) -> (r: i64)
        ensures
            final(self)@ == val,
            r == old(self)@,
    {
        let prev: i64 = self.v;
        self.v = val;
        prev
    }

    /// Stores `new` if the value is `expect`. Returns the value before it.
    pub fn compare_and_swap(&mut self, expect: i64, new: i64, order: Order) -> (r: i64)
        ensures
            final(self)@ == (if old(self)@ == expect {
                new
            } else {
                old(self)@
            }),
            r == old(self)@,
    {
        let prev: i64 = self.v;
        if prev == expect {
            self.v = new;
        }
        prev
    }

    /// Adds to the value, wrapping around at the boundary of the type.
    /// Returns the value before it.
    pub fn fetch_add(&mut self, val: i64, order: Order) -> (r: i64)
        ensures
            final(self)@ == old(self)@.wrapping_add(val),
            r == old(self)@,
    {
        let prev: i64 = self.v;
        self.v = self.v.wrapping_add(val);
        prev
    }

    /// Subtracts from the value, wrapping around at the boundary of the type.
    /// Returns the value before it.
    pub fn fetch_sub(&mut self, val: i64, order: Order) -> (r: i64)
        ensures
            final(self)@ == old(self)@.wrapping_sub(val),
            r == old(self)@,
    {
        let prev: i64 = self.v;
        self.v = self.v.wrapping_sub(val);
        prev
    }

    /// Takes the bitwise "and" of the value.
    /// Returns the value before it.
    pub fn fetch_and(&mut self, val: i64, order: Order) -> (r: i64)
        ensures
            final(self)@ == old(self)@ & val,
            r == old(self)@,
    {
        let prev: i64 = self.v;
        self.v = self.v & val;
        prev
    }

    /// Takes the bitwise "or" of the value.
    /// Returns the value before it.
    pub fn fetch_or(&mut self, val: i64, order: Order) -> (r: i64)
        ensures
            final(self)@ == old(self)@ | val,
            r == old(self)@,
    {
        let prev: i64 = self.v;
        self.v = self.v | val;
        prev
    }

    /// Takes the bitwise "xor" of the value.
    /// Returns the value before it.
    pub fn fetch_xor(&mut self, val: i64, order: Order) -> (r: i64)
        ensures
            final(self)@ == old(self)@ ^ val,
            r == old(self)@,
    {
        let prev: i64 = self.v;
        self.v = self.v ^ val;
        prev
    }
}

/// Adding and then subtracting the same amount brings the value back, and so does
/// taking the bitwise "xor" twice.
pub proof fn law_fetch_is_undone(v: u64, d: u64)
    ensures
        v.wrapping_add(d).wrapping_sub(d) == v,
        (v ^ d) ^ d == v,
{
    assert((v ^ d) ^ d == v) by (bit_vector);
}

/// The same for signed values.
pub proof fn law_signed_fetch_is_undone(v: i64, d: i64)
    ensures
        v.wrapping_add(d).wrapping_sub(d) == v,
        (v ^ d) ^ d == v,
{
    assert((v ^ d) ^ d == v) by (bit_vector);
}

/// A box of a `u64` holds what was stored last. A swap gives the value before it, and so does every
/// other step, which changes the value as it says, up to the wrapping of the number.
pub proof fn law_u64_box_steps(
    val: u64,
    made: AtomicU64,
    any: &AtomicU64,
    order: Order,
    loaded: u64,
    stored: &mut AtomicU64,
    swapped: &mut AtomicU64,
    before: u64,
    cas: &mut AtomicU64,
    expect: u64,
    seen: u64,
)
    requires
        call_ensures(AtomicU64::new, (val,), made),
        call_ensures(AtomicU64::load, (any, order), loaded),
        call_ensures(AtomicU64::store, (stored, val, order), ()),
        call_ensures(AtomicU64::swap, (swapped, val, order), before),
        call_ensures(AtomicU64::compare_and_swap, (cas, expect, val, order), seen),
    ensures
        made@ == val,
        loaded == any@,
        final(stored)@ == val,
        final(swapped)@ == val && before == old(swapped)@,
        seen == old(cas)@,
        old(cas)@ == expect ==> final(cas)@ == val,
        old(cas)@ != expect ==> final(cas)@ == old(cas)@,
{
}

/// The steps of a box of a `u64` that compute give the value before them.
pub proof fn law_u64_box_computes(
    val: u64,
    order: Order,
    add: &mut AtomicU64,
    before_add: u64,
    sub: &mut AtomicU64,
    before_sub: u64,
    and: &mut AtomicU64,
    before_and: u64,
    or: &mut AtomicU64,
    before_or: u64,
    xor: &mut AtomicU64,
    before_xor: u64,
)
    requires
        call_ensures(AtomicU64::fetch_add, (add, val, order), before_add),
        call_ensures(AtomicU64::fetch_sub, (sub, val, order), before_sub),
        call_ensures(AtomicU64::fetch_and, (and, val, order), before_and),
        call_ensures(AtomicU64::fetch_or, (or, val, order), before_or),
        call_ensures(AtomicU64::fetch_xor, (xor, val, order), before_xor),
    ensures
        before_add == old(add)@ && before_sub == old(sub)@ && before_and == old(and)@ && before_or
            == old(or)@ && before_xor == old(xor)@,
        final(add)@ == (old(add)@ + val) % 0x1_0000_0000_0000_0000,
        final(sub)@ == (old(sub)@ - val) % 0x1_0000_0000_0000_0000,
        final(and)@ == old(and)@ & val,
        final(or)@ == old(or)@ | val,
        final(xor)@ == old(xor)@ ^ val,
{
}

/// A box of a `i64` holds what was stored last. A swap gives the value before it, and so does every
/// other step, which changes the value as it says, up to the wrapping of the number.
pub proof fn law_i64_box_steps(
    val: i64,
    made: AtomicI64,
    any: &AtomicI64,
    order: Order,
    loaded: i64,
    stored: &mut AtomicI64,
    swapped: &mut AtomicI64,
    before: i64,
    cas: &mut AtomicI64,
    expect: i64,
    seen: i64,
)
    requires
        call_ensures(AtomicI64::new, (val,), made),
        call_ensures(AtomicI64::load, (any, order), loaded),
        call_ensures(AtomicI64::store, (stored, val, order), ()),
        call_ensures(AtomicI64::swap, (swapped, val, order), before),
        call_ensures(AtomicI64::compare_and_swap, (cas, expect, val, order), seen),
    ensures
        made@ == val,
        loaded == any@,
        final(stored)@ == val,
        final(swapped)@ == val && before == old(swapped)@,
        seen == old(cas)@,
        old(cas)@ == expect ==> final(cas)@ == val,
        old(cas)@ != expect ==> final(cas)@ == old(cas)@,
{
}

/// The steps of a box of a `i64` that compute give the value before them.
pub proof fn law_i64_box_computes(
    val: i64,
    order: Order,
    add: &mut AtomicI64,
    before_add: i64,
    sub: &mut AtomicI64,
    before_sub: i64,
    and: &mut AtomicI64,
    before_and: i64,
    or: &mut AtomicI64,
    before_or: i64,
    xor: &mut AtomicI64,
    before_xor: i64,
)
    requires
        call_ensures(AtomicI64::fetch_add, (add, val, order), before_add),
        call_ensures(AtomicI64::fetch_sub, (sub, val, order), before_sub),
        call_ensures(AtomicI64::fetch_and, (and, val, order), before_and),
        call_ensures(AtomicI64::fetch_or, (or, val, order), before_or),
        call_ensures(AtomicI64::fetch_xor, (xor, val, order), before_xor),
    ensures
        before_add == old(add)@ && before_sub == old(sub)@ && before_and == old(and)@ && before_or
            == old(or)@ && before_xor == old(xor)@,
        final(add)@ == old(add)@ + val || final(add)@ == old(add)@ + val - 0x1_0000_0000_0000_0000
            || final(add)@ == old(add)@ + val + 0x1_0000_0000_0000_0000,
        final(sub)@ == old(sub)@ - val || final(sub)@ == old(sub)@ - val - 0x1_0000_0000_0000_0000
            || final(sub)@ == old(sub)@ - val + 0x1_0000_0000_0000_0000,
        final(and)@ == old(and)@ & val,
        final(or)@ == old(or)@ | val,
        final(xor)@ == old(xor)@ ^ val,
{
}

/// A box of any kind that holds what was put into it: the same holds of every box, and so of one
/// that stores its values by their representation.
pub proof fn law_every_box_steps<T, A: Atomic<T>>(
    val: T,
    made: A,
    any: &A,
    order: Order,
    loaded: T,
    stored: &mut A,
    swapped: &mut A,
    before: T,
    cas: &mut A,
    expect: T,
    seen: T,
)
    requires
        call_ensures(A::new, (val,), made),
        call_ensures(A::load, (any, order), loaded),
        call_ensures(A::store, (stored, val, order), ()),
        call_ensures(A::swap, (swapped, val, order), before),
        call_ensures(A::compare_and_swap, (cas, expect, val, order), seen),
    ensures
        made.value() == val,
        loaded == any.value(),
        final(stored).value() == val,
        final(swapped).value() == val && before == old(swapped).value(),
        seen == old(cas).value(),
        old(cas).value() == expect ==> final(cas).value() == val,
        old(cas).value() != expect ==> final(cas).value() == old(cas).value(),
{
}

/// The orderings that a load and a store may have.
pub proof fn law_orderings(order: Order)
    ensures
        loads(order) <==> order is Relaxed || order is Acquire || order is SeqCst,
        stores(order) <==> order is Relaxed || order is Release || order is SeqCst,
{
}

} // verus!
