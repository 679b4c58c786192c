//! A doubly linked list whose links stand in the slots of a vector.
use vstd::prelude::*;

verus! {

/// A link of the list. Its neighbours are named by their slots.
#[derive(Debug)]
pub struct Link<T> {
    pub next: Option<usize>,
    pub prev: Option<usize>,
    pub val: T,
}

impl<T> Link<T> {
    /// A link behind `prev`.
    pub fn new(val: T, prev: Option<usize>) -> (r: Link<T>)
        ensures
            r == (Link { next: None, prev, val }),
    {
        Link { next: None, prev, val }
    }
}

/// The list.
pub struct List<T> {
    size: usize,
    head: Option<usize>,
    tail: Option<usize>,
    slots: Vec<Option<Link<T>>>,
    free: Vec<usize>,
    order: Ghost<Seq<usize>>,
}

impl<T> List<T> {
    /// The slot before place `i`.
    spec fn slot_before(order: Seq<usize>, i: int) -> Option<usize> {
        if 0 < i <= order.len() {
            Some(order[i - 1])
        } else {
            None
        }
    }

    /// The slot at place `i`.
    spec fn slot_at(order: Seq<usize>, i: int) -> Option<usize> {
        if 0 <= i < order.len() {
            Some(order[i])
        } else {
            None
        }
    }

    /// The link at place `i` is there and knows its neighbours.
    spec fn linked(slots: Seq<Option<Link<T>>>, order: Seq<usize>, i: int) -> bool {
        &&& order[i] < slots.len()
        &&& slots[order[i] as int] matches Some(link) && link.next == Self::slot_at(order, i + 1)
            && link.prev == Self::slot_before(order, i)
    }

    /// The links are chained in the order of the list, every other slot is free,
    /// and no slot is lost.
    pub closed spec fn wf(self) -> bool {
        &&& self.size == self.order@.len()
        &&& self.head == Self::slot_at(self.order@, 0)
        &&& self.tail == Self::slot_before(self.order@, self.order@.len() as int)
        &&& self.order@.no_duplicates()
        &&& forall|i: int|
            0 <= i < self.order@.len() ==> #[trigger] Self::linked(self.slots@, self.order@, i)
        &&& self.free@.no_duplicates()
        &&& forall|j: int|
            0 <= j < self.free@.len() ==> (#[trigger] self.free@[j]) < self.slots@.len()
                && self.slots@[self.free@[j] as int] is None
        &&& self.slots@.len() == self.order@.len() + self.free@.len()
    }

    /// The values in the order of the list.
    pub closed spec fn view(&self) -> Seq<T> {
        Seq::new(self.order@.len(), |i: int| self.slots@[self.order@[i] as int]->0.val)
    }

    /// The empty list.
    pub fn new() -> (r: List<T>)
        ensures
            r.wf(),
            r@ == Seq::<T>::empty(),
    {
        let r = List {
            size: 0,
            head: None,
            tail: None,
            slots: Vec::new(),
            free: Vec::new(),
            order: Ghost(Seq::empty()),
        };
        assert(r@ =~= Seq::<T>::empty());
        r
    }

    /// The number of values.
    pub fn size(&self) -> (r: usize)
        requires
            self.wf(),
        ensures
            r == self@.len(),
    {
        self.size
    }

    /// Takes the first link out.
    pub fn pop_head(&mut self) -> (r: Option<Link<T>>)
        requires
            old(self).wf(),
        ensures
            final(self).wf(),
            r is None <==> old(self)@.len() == 0,
            r is None ==> final(self)@ == old(self)@,
            r matches Some(link) ==> link.val == old(self)@[0] && final(self)@
                == old(self)@.drop_first(),
    {
        if self.size == 0 {
            return None;
        }
        let ghost order = self.order@;
        let ghost slots = self.slots@;
        assert(Self::linked(slots, order, 0));
        self.size -= 1;
        let at: usize = self.head.unwrap();
        let mut gone: Option<Link<T>> = None;
        core::mem::swap(&mut self.slots[at], &mut gone);
        let head = gone.unwrap();
        self.free.push(at);
        self.head = head.next;
        if self.size == 0 {
            self.tail = None;
        }
        if let Some(first) = self.head {
            assert(Self::linked(slots, order, 1));
            let mut link: Option<Link<T>> = None;
            core::mem::swap(&mut self.slots[first], &mut link);
            let mut link = link.unwrap();
            link.prev = None;
            self.slots[first] = Some(link);
        }
        proof {
            self.order@ = order.drop_first();
            assert forall|i: int| 0 <= i < self.order@.len() implies #[trigger] Self::linked(
                self.slots@,
                self.order@,
                i,
            ) by {
                assert(Self::linked(slots, order, i + 1));
                assert(order[i + 1] != order[0]);
            }
            assert(self@ =~= old(self)@.drop_first()) by {
                assert forall|i: int| 0 <= i < self.order@.len() implies self@[i] == old(
                    self,
                )@.drop_first()[i] by {
                    assert(Self::linked(slots, order, i + 1));
                    assert(order[i + 1] != order[0]);
                }
            }
        }
        Some(head)
    }

    /// Adds a value at the end, or hands it back if there are `capacity` values.
    pub fn push_tail(&mut self, val: T, capacity: usize) -> (r: Result<(), T>)
        requires
            old(self).wf(),
        ensures
            final(self).wf(),
            r is Err <==> old(self)@.len() >= capacity,
            r matches Err(v) ==> v == val && *final(self) == *old(self),
            r is Ok ==> final(self)@ == old(self)@.push(val),
    {
        if self.size >= capacity {
            return Err(val);
        }
        let ghost order = self.order@;
        let ghost slots = self.slots@;
        let link = Link::new(val, self.tail);
        self.size += 1;
        let at: usize = match self.free.pop() {
            Some(at) => {
                self.slots[at] = Some(link);
                at
            },
            None => {
                let at: usize = self.slots.len();
                self.slots.push(Some(link));
                at
            },
        };
        proof {
            assert forall|i: int| 0 <= i < order.len() implies order[i] != at by {
                assert(Self::linked(slots, order, i));
            }
        }
        if let Some(last) = self.tail {
            assert(Self::linked(slots, order, order.len() - 1));
            let mut link: Option<Link<T>> = None;
            core::mem::swap(&mut self.slots[last], &mut link);
            let mut link = link.unwrap();
            link.next = Some(at);
            self.slots[last] = Some(link);
        }
        self.tail = Some(at);
        if self.size == 1 {
            self.head = Some(at);
        }
        proof {
            self.order@ = order.push(at);
            assert forall|i: int| 0 <= i < self.order@.len() implies #[trigger] Self::linked(
                self.slots@,
                self.order@,
                i,
            ) by {
                if i < order.len() {
                    assert(Self::linked(slots, order, i));
                }
            }
            assert(self@ =~= old(self)@.push(val)) by {
                assert forall|i: int| 0 <= i < order.len() implies self@[i] == old(self)@[i] by {
                    assert(Self::linked(slots, order, i));
                }
            }
            assert forall|j: int| 0 <= j < self.free@.len() implies (#[trigger] self.free@[j])
                < self.slots@.len() && self.slots@[self.free@[j] as int] is None by {
                assert(self.free@[j] == old(self).free@[j]);
                if order.len() > 0 {
                    assert(Self::linked(slots, order, order.len() - 1));
                }
            }
        }
        Ok(())
    }
}

/// A value that is added at the end is taken out after all that were there before, and the size
/// counts what is there.
pub proof fn law_list_is_first_in_first_out<T>(
    list: &mut List<T>,
    val: T,
    capacity: usize,
    r: Result<(), T>,
    other: &mut List<T>,
    first: Option<Link<T>>,
    before: usize,
    after: usize,
)
    requires
        old(list).wf(),
        call_ensures(List::<T>::size, (&*old(list),), before),
        call_ensures(List::<T>::push_tail, (list, val, capacity), r),
        call_ensures(List::<T>::size, (&*final(list),), after),
        *old(other) == *final(list),
        call_ensures(List::<T>::pop_head, (other,), first),
    ensures
        r is Ok <==> before < capacity,
        r matches Err(back) ==> back == val && after == before && final(list)@ == old(list)@,
        r is Ok ==> after == before + 1 && first is Some,
        first is Some && r is Ok ==> seq![first->0.val] + final(other)@ =~= old(list)@ + seq![val],
        before > 0 ==> first is Some && first->0.val == old(list)@[0],
{
}

} // verus!
