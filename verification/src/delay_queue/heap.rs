//! A binary heap with the earliest entry on top.
use vstd::multiset::Multiset;
use vstd::prelude::*;

verus! {

/// A value and the time from which on it may be used.
#[derive(Debug)]
pub struct Entry<T> {
    pub val: T,
    pub time: i128,
    /// Whether the value stands behind others of the same time.
    pub last: bool,
}

impl<T> Entry<T> {
    /// The place of the entry in the order of all entries: by time, and at the same
    /// time those that stand behind others come last.
    pub open spec fn key(self) -> int {
        2 * self.time + if self.last {
            1int
        } else {
            0
        }
    }

    /// The entry of a value.
    pub fn new(val: T, time: i128) -> (r: Entry<T>)
        ensures
            r == (Entry { val, time, last: false }),
    {
        Entry { val, time, last: false }
    }

    /// The entry of a value that stands behind others of the same time.
    pub fn behind(val: T, time: i128) -> (r: Entry<T>)
        ensures
            r == (Entry { val, time, last: true }),
    {
        Entry { val, time, last: true }
    }

    /// Whether the entry comes before another one.
    pub fn precedes(&self, other: &Entry<T>) -> (r: bool)
        ensures
            r == (self.key() < other.key()),
    {
        self.time < other.time || (self.time == other.time && !self.last && other.last)
    }
}

/// Exchanges the elements at two places.
fn swap<E>(v: &mut Vec<E>, i: usize, j: usize)
    requires
        i < j < old(v)@.len(),
    ensures
        final(v)@ == old(v)@.update(i as int, old(v)@[j as int]).update(
            j as int,
            old(v)@[i as int],
        ),
{
    let (a, b) = v.as_mut_slice().split_at_mut(j);
    core::mem::swap(&mut a[i], &mut b[0]);
}

/// Exchanging two elements keeps the contents.
proof fn lemma_swap_keeps<E>(s: Seq<E>, i: int, j: int)
    requires
        0 <= i < j < s.len(),
    ensures
        s.update(i, s[j]).update(j, s[i]).to_multiset() == s.to_multiset(),
{
    broadcast use vstd::seq_lib::group_to_multiset_ensures;

    lemma_update_contents(s, i, s[j]);
    lemma_update_contents(s.update(i, s[j]), j, s[i]);
    assert(s.contains(s[i]));
    assert(s.update(i, s[j]).update(j, s[i]).to_multiset() =~= s.to_multiset());
}

/// Replacing an element replaces it in the contents.
proof fn lemma_update_contents<E>(s: Seq<E>, i: int, e: E)
    requires
        0 <= i < s.len(),
    ensures
        s.update(i, e).to_multiset() == s.to_multiset().remove(s[i]).insert(e),
{
    broadcast use vstd::seq_lib::group_to_multiset_ensures;

    assert(s.update(i, e) =~= s.remove(i).insert(i, e));
    vstd::seq_lib::to_multiset_remove(s, i);
    vstd::seq_lib::to_multiset_insert(s.remove(i), i, e);
}

/// Sequences with the same contents hold the same values.
proof fn lemma_same_values<T>(s: Seq<Entry<T>>, t: Seq<Entry<T>>)
    requires
        s.to_multiset() == t.to_multiset(),
    ensures
        values(s) == values(t),
    decreases s.len(),
{
    broadcast use vstd::seq_lib::group_to_multiset_ensures;

    assert(s.to_multiset().len() == s.len() && t.to_multiset().len() == t.len());
    if s.len() == 0 {
        assert(s =~= t);
    } else {
        assert(s.contains(s[0]));
        assert(t.to_multiset().count(s[0]) > 0);
        assert(t.contains(s[0]));
        let j = choose|j: int| 0 <= j < t.len() && t[j] == s[0];
        lemma_same_values(s.remove(0), t.remove(j));
        lemma_values_remove(s, 0);
        lemma_values_remove(t, j);
        lemma_values_contain(s, 0);
        lemma_values_contain(t, j);
        assert(values(s) =~= values(s).remove(s[0].val).insert(s[0].val));
        assert(values(t) =~= values(t).remove(s[0].val).insert(s[0].val));
    }
}

/// The values of some entries.
pub closed spec fn values<T>(s: Seq<Entry<T>>) -> Multiset<T> {
    s.map_values(|e: Entry<T>| e.val).to_multiset()
}

/// The value of an entry is one of the values.
proof fn lemma_values_contain<T>(s: Seq<Entry<T>>, i: int)
    requires
        0 <= i < s.len(),
    ensures
        values(s).contains(s[i].val),
{
    broadcast use vstd::seq_lib::group_to_multiset_ensures;

    let vals = s.map_values(|e: Entry<T>| e.val);
    assert(vals[i] == s[i].val);
    assert(vals.contains(s[i].val));
}

/// Removing an entry removes its value.
proof fn lemma_values_remove<T>(s: Seq<Entry<T>>, i: int)
    requires
        0 <= i < s.len(),
    ensures
        values(s.remove(i)) == values(s).remove(s[i].val),
{
    broadcast use vstd::seq_lib::group_to_multiset_ensures;

    let f = |e: Entry<T>| e.val;
    assert(s.remove(i).map_values(f) =~= s.map_values(f).remove(i));
}

/// The place above place `i`.
spec fn parent(i: int) -> int {
    (i - 1) / 2
}

/// The heap.
pub struct Heap<T> {
    items: Vec<Entry<T>>,
}

impl<T> Heap<T> {
    /// The entry at place `i` is no earlier than the one above it.
    spec fn below(s: Seq<Entry<T>>, i: int) -> bool {
        s[parent(i)].key() <= s[i].key()
    }

    /// No entry is earlier than the one above it.
    spec fn ordered(s: Seq<Entry<T>>) -> bool {
        forall|i: int| 0 < i < s.len() ==> #[trigger] Self::below(s, i)
    }

    /// The invariant.
    pub closed spec fn wf(&self) -> bool {
        Self::ordered(self.items@)
    }

    /// The entries.
    pub closed spec fn view(&self) -> Multiset<Entry<T>> {
        self.items@.to_multiset()
    }

    /// The values of the entries.
    pub closed spec fn values(&self) -> Multiset<T> {
        values(self.items@)
    }

    /// There is one value for each entry.
    pub proof fn lemma_values(&self)
        ensures
            self.values().len() == self@.len(),
    {
        broadcast use vstd::seq_lib::group_to_multiset_ensures;

    }

    /// The entry on top.
    pub closed spec fn top(&self) -> Entry<T> {
        self.items@[0]
    }

    /// The entry on top is one of the entries, and none is earlier.
    pub proof fn lemma_top(&self)
        requires
            self.wf(),
            self@.len() > 0,
        ensures
            self@.contains(self.top()),
            forall|e: Entry<T>| #[trigger] self@.contains(e) ==> self.top().key() <= e.key(),
    {
        broadcast use vstd::seq_lib::group_to_multiset_ensures;

        let s = self.items@;
        assert(s.contains(s[0]));
        assert forall|e: Entry<T>| #[trigger] self@.contains(e) implies self.top().key()
            <= e.key() by {
            assert(s.contains(e));
            let i = choose|i: int| 0 <= i < s.len() && s[i] == e;
            Self::lemma_top_is_first(s, i);
        }
    }

    /// No entry is earlier than the first one.
    proof fn lemma_top_is_first(s: Seq<Entry<T>>, i: int)
        requires
            Self::ordered(s),
            0 <= i < s.len(),
        ensures
            s[0].key() <= s[i].key(),
        decreases i,
    {
        if i > 0 {
            assert(Self::below(s, i));
            Self::lemma_top_is_first(s, parent(i));
        }
    }

    /// The empty heap.
    pub fn new() -> (r: Heap<T>)
        ensures
            r.wf(),
            r@ == Multiset::<Entry<T>>::empty(),
            r.values() == Multiset::<T>::empty(),
    {
        broadcast use vstd::seq_lib::group_to_multiset_ensures;

        let r = Heap { items: Vec::new() };
        assert(r@.len() == 0);
        assert(r@ =~= Multiset::<Entry<T>>::empty());
        assert(r.values() =~= Multiset::<T>::empty()) by {
            r.lemma_values();
        }
        r
    }

    /// The number of entries.
    pub fn len(&self) -> (r: usize)
        ensures
            r == self@.len(),
    {
        broadcast use vstd::seq_lib::group_to_multiset_ensures;

        self.items.len()
    }

    /// Looks at the earliest entry.
    pub fn peek(&self) -> (r: Option<&Entry<T>>)
        ensures
            r is None <==> self@.len() == 0,
            r matches Some(e) ==> *e == self.top(),
    {
        broadcast use vstd::seq_lib::group_to_multiset_ensures;

        if self.items.len() == 0 {
            None
        } else {
            Some(&self.items[0])
        }
    }

    /// The latest time of all entries.
    pub fn latest(&self) -> (r: Option<i128>)
        ensures
            r is None <==> self@.len() == 0,
            r matches Some(t) ==> forall|e: Entry<T>| #[trigger] self@.contains(e) ==> e.time <= t,
            r matches Some(t) ==> exists|e: Entry<T>| #[trigger] self@.contains(e) && e.time == t,
    {
        broadcast use vstd::seq_lib::group_to_multiset_ensures;

        if self.items.len() == 0 {
            return None;
        }
        let mut t: i128 = self.items[0].time;
        let mut i: usize = 1;
        let ghost mut at = 0int;
        while i < self.items.len()
            invariant
                1 <= i <= self.items@.len(),
                0 <= at < i,
                self.items@[at].time == t,
                forall|k: int| 0 <= k < i ==> (#[trigger] self.items@[k]).time <= t,
            decreases self.items@.len() - i,
        {
            if self.items[i].time > t {
                t = self.items[i].time;
                proof {
                    at = i as int;
                }
            }
            i += 1;
        }
        proof {
            assert(self.items@.contains(self.items@[at]));
            assert(self@.contains(self.items@[at]));
            assert forall|e: Entry<T>| #[trigger] self@.contains(e) implies e.time <= t by {
                assert(self.items@.contains(e));
            }
        }
        Some(t)
    }

    /// Adds an entry.
    pub fn push(&mut self, e: Entry<T>)
        requires
            old(self).wf(),
        ensures
            final(self).wf(),
            final(self)@ == old(self)@.insert(e),
            final(self).values() == old(self).values().insert(e.val),
    {
        broadcast use vstd::seq_lib::group_to_multiset_ensures;

        let ghost before = self.items@;
        let mut i: usize = self.items.len();
        self.items.push(e);
        proof {
            assert forall|k: int| 0 < k < self.items@.len() && k != i implies Self::below(
                self.items@,
                k,
            ) by {
                assert(Self::below(before, k));
            }
        }
        while i > 0 && self.items[i].precedes(&self.items[(i - 1) / 2])
            invariant
                0 <= i < self.items@.len(),
                self.items@.to_multiset() == before.push(e).to_multiset(),
                forall|k: int|
                    0 < k < self.items@.len() && k != i ==> #[trigger] Self::below(self.items@, k),
                forall|k: int|
                    0 < k < self.items@.len() && parent(k) == i && i > 0
                        ==> self.items@[parent(i as int)].key() <= (#[trigger] self.items@[k]).key(),
            decreases i,
        {
            let up: usize = (i - 1) / 2;
            let ghost s = self.items@;
            proof {
                lemma_swap_keeps(s, up as int, i as int);
            }
            swap(&mut self.items, up, i);
            proof {
                let t = self.items@;
                assert forall|k: int| 0 < k < t.len() && k != up implies #[trigger] Self::below(
                    t,
                    k,
                ) by {
                    if k != i {
                        assert(Self::below(s, k));
                    }
                    if parent(k) == i {
                        assert(s[k] == t[k]);
                    }
                }
                assert forall|k: int| 0 < k < t.len() && parent(k) == up && up > 0 implies t[parent(
                    up as int,
                )].key() <= (#[trigger] t[k]).key() by {
                    assert(Self::below(s, up as int));
                    if k != i {
                        assert(Self::below(s, k));
                    }
                }
            }
            i = up;
        }
        proof {
            assert forall|k: int| 0 < k < self.items@.len() implies #[trigger] Self::below(
                self.items@,
                k,
            ) by {}
            lemma_same_values(self.items@, before.push(e));
            let f = |e: Entry<T>| e.val;
            assert(before.push(e).map_values(f) =~= before.map_values(f).push(e.val));
        }
    }

    /// Takes the earliest entry out.
    pub fn pop(&mut self) -> (r: Option<Entry<T>>)
        requires
            old(self).wf(),
        ensures
            final(self).wf(),
            r is None <==> old(self)@.len() == 0,
            r is None ==> final(self)@ == old(self)@,
            r matches Some(e) ==> e == old(self).top() && final(self)@ == old(self)@.remove(e)
                && old(self).values().contains(e.val) && final(self).values() == old(
                self,
            ).values().remove(e.val),
            r is None ==> final(self).values() == old(self).values(),
    {
        broadcast use vstd::seq_lib::group_to_multiset_ensures;

        if self.items.len() == 0 {
            return None;
        }
        let ghost before = self.items@;
        let top = self.items.swap_remove(0);
        let ghost after = self.items@;
        proof {
            assert(before.contains(before[0]));
            if before.len() > 1 {
                assert(before =~= before.drop_last().push(before.last()));
                assert(after =~= before.drop_last().update(0, before.last()));
                lemma_update_contents(before.drop_last(), 0, before.last());
                assert(before.drop_last().contains(before[0]));
                assert(after.to_multiset() =~= before.to_multiset().remove(before[0]));
            } else {
                assert(after =~= before.remove(0));
            }
            assert forall|k: int| 0 < k < after.len() && parent(k) != 0 implies #[trigger] Self::below(
                after,
                k,
            ) by {
                assert(Self::below(before, k));
            }
        }
        let len: usize = self.items.len();
        let mut i: usize = 0;
        let mut sifting: bool = true;
        while sifting
            invariant
                len == self.items@.len(),
                0 <= i,
                i < len || len == 0,
                self.items@.to_multiset() == after.to_multiset(),
                forall|k: int|
                    0 < k < len && (parent(k) != i || !sifting) ==> #[trigger] Self::below(
                        self.items@,
                        k,
                    ),
                forall|k: int|
                    0 < k < len && parent(k) == i && i > 0 ==> self.items@[parent(i as int)].key()
                        <= (#[trigger] self.items@[k]).key(),
            decreases len - i, if sifting { 1int } else { 0int },
        {
            if i >= len / 2 {
                sifting = false;
                proof {
                    assert forall|k: int| 0 < k < len implies #[trigger] Self::below(
                        self.items@,
                        k,
                    ) by {
                        assert(parent(k) < len / 2);
                    }
                }
            } else {
                let left: usize = 2 * i + 1;
                let mut least: usize = left;
                if left + 1 < len && self.items[left + 1].precedes(&self.items[left]) {
                    least = left + 1;
                }
                if self.items[least].precedes(&self.items[i]) {
                    let ghost s = self.items@;
                    proof {
                        lemma_swap_keeps(s, i as int, least as int);
                    }
                    swap(&mut self.items, i, least);
                    proof {
                        let t = self.items@;
                        assert(parent(left as int) == i && parent(left + 1) == i);
                        assert forall|k: int|
                            0 < k < len && parent(k) != least implies #[trigger] Self::below(
                            t,
                            k,
                        ) by {
                            if parent(k) == i {
                                assert(k == left || k == left + 1);
                            } else {
                                assert(Self::below(s, k));
                                if k == i {
                                    assert(s[least as int].key() >= s[parent(i as int)].key());
                                }
                            }
                        }
                        assert forall|k: int|
                            0 < k < len && parent(k) == least implies t[parent(least as int)].key()
                            <= (#[trigger] t[k]).key() by {
                            assert(Self::below(s, k));
                        }
                    }
                    i = least;
                } else {
                    sifting = false;
                    proof {
                        assert forall|k: int| 0 < k < len implies #[trigger] Self::below(
                            self.items@,
                            k,
                        ) by {
                            if parent(k) == i {
                                assert(k == left || k == left + 1);
                            }
                        }
                    }
                }
            }
        }
        proof {
            lemma_same_values(self.items@, before.remove(0));
            lemma_values_remove(before, 0);
            lemma_values_contain(before, 0);
        }
        Some(top)
    }
}

/// What is pushed is popped in the order of the times, and at one time what stands behind others
/// comes after them. Nothing is lost, and nothing comes twice.
pub proof fn law_heap_pops_the_earliest<T>(
    heap: &mut Heap<T>,
    e: Entry<T>,
    other: &mut Heap<T>,
    r: Option<Entry<T>>,
    peeked: Option<&Entry<T>>,
)
    requires
        old(heap).wf(),
        call_ensures(Heap::<T>::push, (heap, e), ()),
        *old(other) == *final(heap),
        call_ensures(Heap::<T>::peek, (&*old(other),), peeked),
        call_ensures(Heap::<T>::pop, (other,), r),
    ensures
        ({
            let all = old(heap)@.insert(e);
            &&& r matches Some(x) && peeked matches Some(p) && *p == x && all.contains(x)
                && forall|y: Entry<T>| #[trigger]
                all.contains(y) ==> x.time < y.time || (x.time == y.time && (y.last || !x.last))
            &&& r matches Some(x) ==> final(other)@.insert(x) =~= all
        }),
{
    old(other).lemma_top();
}

/// Of two entries the earlier one precedes, and at the same time one that does not stand behind
/// others precedes one that does.
pub proof fn law_entries_precede_by_time<T>(
    a: T,
    s: i128,
    b: T,
    t: i128,
    first: Entry<T>,
    second: Entry<T>,
    behind: Entry<T>,
    r: bool,
    last: bool,
    undone: bool,
)
    requires
        call_ensures(Entry::<T>::new, (a, s), first),
        call_ensures(Entry::<T>::new, (b, t), second),
        call_ensures(Entry::<T>::behind, (b, t), behind),
        call_ensures(Entry::<T>::precedes, (&first, &second), r),
        call_ensures(Entry::<T>::precedes, (&first, &behind), last),
        call_ensures(Entry::<T>::precedes, (&behind, &first), undone),
    ensures
        first.val == a && first.time == s,
        behind.val == b && behind.time == t,
        r <==> s < t,
        last <==> s <= t,
        undone <==> t < s,
{
}

} // verus!
