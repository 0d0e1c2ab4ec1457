//! Fixed-capacity slot allocator for one record kind.

use crate::list::{first_index_of, lemma_first_index_of, MetaList, SlotList};
use crate::meta_type::MetaType;
use vstd::prelude::*;

verus! {

/// Stands for a record of any kind in the lists of a [`MetaPool`].
pub struct Meta {}

/// Keeps the books of a fixed number of slots: which are free, which are in
/// use, and in which order they were handed out.
///
/// The pool stores no record itself. Its owner keeps one record per slot and
/// asks the pool which slots are in use.
pub struct MetaPool {
    meta_type: MetaType,
    max_elements_in_pool: u32,
    element_size: u32,
    num_empty_elements: u32,
    num_full_elements: u32,
    empty_list: SlotList,
    full_list: SlotList,
    in_use: Vec<bool>,
}

impl MetaPool {
    /// The number of slots.
    pub closed spec fn capacity(&self) -> nat {
        self.max_elements_in_pool as nat
    }

    /// The kind of record that the pool serves.
    pub closed spec fn kind(&self) -> MetaType {
        self.meta_type
    }

    /// The size of one record, as given when the pool was made.
    pub closed spec fn record_size(&self) -> u32 {
        self.element_size
    }

    /// The free slots. The last one is handed out next.
    pub closed spec fn free_slots(&self) -> Seq<usize> {
        self.empty_list@
    }

    /// The slots in use, in the order in which they were handed out.
    pub closed spec fn used_slots(&self) -> Seq<usize> {
        self.full_list@
    }

    /// The number of free slots.
    pub open spec fn free_count(&self) -> nat {
        self.free_slots().len()
    }

    /// The number of slots in use.
    pub open spec fn used_count(&self) -> nat {
        self.used_slots().len()
    }

    /// Whether `slot` is in use.
    pub closed spec fn slot_used(&self, slot: usize) -> bool {
        slot < self.in_use@.len() && self.in_use@[slot as int]
    }

    /// What holds of the private counters and flags of a valid pool.
    pub closed spec fn counters_agree(&self) -> bool {
        &&& self.in_use@.len() == self.max_elements_in_pool
        &&& self.num_empty_elements == self.empty_list@.len()
        &&& self.num_full_elements == self.full_list@.len()
    }

    /// Validity of a pool: every slot is in exactly one of the two lists, once,
    /// and the two counts add up to the capacity.
    pub open spec fn wf(&self) -> bool {
        &&& self.counters_agree()
        &&& self.capacity() <= u32::MAX
        &&& self.free_count() + self.used_count() == self.capacity()
        &&& self.free_slots().no_duplicates()
        &&& self.used_slots().no_duplicates()
        &&& forall|s: usize| #[trigger] self.used_slots().contains(s) <==> self.slot_used(s)
        &&& forall|s: usize| #[trigger]
            self.free_slots().contains(s) <==> (s < self.capacity() && !self.slot_used(s))
        &&& forall|s: usize| #[trigger] self.slot_used(s) ==> s < self.capacity()
    }

    /// Whether this pool came from `old` by taking `slot` into use: `slot`
    /// was the last free slot, is now the last of the slots in use, and
    /// nothing else has changed.
    pub open spec fn acquired_from(&self, old: &MetaPool, slot: usize) -> bool {
        &&& self.kind() == old.kind()
        &&& self.capacity() == old.capacity()
        &&& self.record_size() == old.record_size()
        &&& old.free_count() > 0
        &&& slot == old.free_slots().last()
        &&& slot < old.capacity()
        &&& !old.slot_used(slot)
        &&& self.slot_used(slot)
        &&& self.free_slots() == old.free_slots().drop_last()
        &&& self.used_slots() == old.used_slots().push(slot)
        &&& forall|t: usize| t != slot ==> self.slot_used(t) == old.slot_used(t)
    }

    /// Whether this pool came from `old` by giving `slot` back: `slot` was
    /// in use, is now the last free slot, and nothing else has changed.
    pub open spec fn released_from(&self, old: &MetaPool, slot: usize) -> bool {
        &&& self.kind() == old.kind()
        &&& self.capacity() == old.capacity()
        &&& self.record_size() == old.record_size()
        &&& old.slot_used(slot)
        &&& !self.slot_used(slot)
        &&& self.free_slots() == old.free_slots().push(slot)
        &&& self.used_slots() == old.used_slots().remove(
            first_index_of(old.used_slots(), slot),
        )
        &&& forall|t: usize| t != slot ==> self.slot_used(t) == old.slot_used(t)
    }

    /// A pool of `capacity` slots, all of them free. The slots are handed out
    /// from slot 0 upwards.
    pub fn new(meta_type: MetaType, capacity: u32, element_size: u32) -> (r: MetaPool)
        ensures
            r.wf(),
            r.kind() == meta_type,
            r.capacity() == capacity,
            r.record_size() == element_size,
            r.used_slots() == Seq::<usize>::empty(),
            r.free_slots() == Seq::new(capacity as nat, |i: int| (capacity - 1 - i) as usize),
            forall|s: usize| !r.slot_used(s),
    {
        let mut empty_list: SlotList = SlotList::new();
        let mut in_use: Vec<bool> = Vec::new();
        let mut i: u32 = 0;
        while i < capacity
            invariant
                i <= capacity,
                in_use@.len() == i,
                forall|j: int| 0 <= j < i ==> !in_use@[j],
                empty_list@ == Seq::new(i as nat, |j: int| (capacity - 1 - j) as usize),
            decreases capacity - i,
        {
            let slot: usize = (capacity - 1 - i) as usize;
            empty_list.append(slot);
            in_use.push(false);
            assert(Seq::new(i as nat, |j: int| (capacity - 1 - j) as usize).push(slot)
                =~= Seq::new((i + 1) as nat, |j: int| (capacity - 1 - j) as usize));
            i += 1;
        }
        let r = MetaPool {
            meta_type,
            max_elements_in_pool: capacity,
            element_size,
            num_empty_elements: capacity,
            num_full_elements: 0,
            empty_list,
            full_list: SlotList::new(),
            in_use,
        };
        proof {
            let free = r.free_slots();
            assert forall|s: usize| #[trigger] free.contains(s) <==> (s < r.capacity()
                && !r.slot_used(s)) by {
                if s < capacity {
                    assert(free[capacity - 1 - s] == s);
                }
            }
            assert(free.no_duplicates());
        }
        r
    }

    /// The kind of record that the pool serves.
    pub fn meta_type(&self) -> (r: MetaType)
        ensures
            r == self.kind(),
    {
        self.meta_type
    }

    /// The number of slots.
    pub fn max_elements_in_pool(&self) -> (r: u32)
        ensures
            r == self.capacity(),
    {
        self.max_elements_in_pool
    }

    /// The size of one record, as given when the pool was made.
    pub fn element_size(&self) -> (r: u32)
        ensures
            r == self.record_size(),
    {
        self.element_size
    }

    /// The number of free slots.
    pub fn num_empty_elements(&self) -> (r: u32)
        requires
            self.wf(),
        ensures
            r == self.free_count(),
            r + self.used_count() == self.capacity(),
    {
        self.num_empty_elements
    }

    /// The number of slots in use.
    pub fn num_full_elements(&self) -> (r: u32)
        requires
            self.wf(),
        ensures
            r == self.used_count(),
            r + self.free_count() == self.capacity(),
    {
        self.num_full_elements
    }

    /// The free slots, or `None` where no slot is free.
    pub fn empty_list(&self) -> (r: Option<MetaList<'_, Meta>>)
        ensures
            r is Some <==> self.free_count() > 0,
            r is Some ==> r.unwrap()@ == self.free_slots(),
    {
        if self.empty_list.is_empty() {
            None
        } else {
            Some(MetaList::new(&self.empty_list))
        }
    }

    /// The slots in use, or `None` where no slot is in use.
    pub fn full_list(&self) -> (r: Option<MetaList<'_, Meta>>)
        ensures
            r is Some <==> self.used_count() > 0,
            r is Some ==> r.unwrap()@ == self.used_slots(),
    {
        if self.full_list.is_empty() {
            None
        } else {
            Some(MetaList::new(&self.full_list))
        }
    }

    /// Whether `slot` is in use. A number that is no slot of the pool is not in
    /// use.
    pub fn is_used(&self, slot: usize) -> (r: bool)
        ensures
            r == self.slot_used(slot),
    {
        slot < self.in_use.len() && self.in_use[slot]
    }

    /// Takes the last free slot into use and returns it, or returns `None` and
    /// changes nothing where no slot is free.
    pub fn acquire(&mut self) -> (r: Option<usize>)
        requires
            old(self).wf(),
        ensures
            final(self).wf(),
            r is Some <==> old(self).free_count() > 0,
            r is None ==> *final(self) == *old(self),
            r is Some ==> final(self).acquired_from(old(self), r.unwrap()),
    {
        if self.empty_list.is_empty() {
            return None;
        }
        match self.empty_list.pop() {
            None => None,
            Some(s) => {
                proof {
                    let free = old(self).free_slots();
                    assert(free[free.len() - 1] == s);
                    assert(free.contains(s));
                }
                self.full_list.append(s);
                self.in_use[s] = true;
                self.num_empty_elements = self.num_empty_elements - 1;
                self.num_full_elements = self.num_full_elements + 1;
                proof {
                    let free0 = old(self).free_slots();
                    let used0 = old(self).used_slots();
                    let free1 = self.free_slots();
                    let used1 = self.used_slots();
                    assert forall|t: usize| t != s implies self.slot_used(t) == old(
                        self,
                    ).slot_used(t) by {}
                    assert(self.slot_used(s));
                    assert forall|t: usize| #[trigger] used1.contains(t) <==> self.slot_used(
                        t,
                    ) by {
                        if used1.contains(t) {
                            let j = choose|j: int| 0 <= j < used1.len() && used1[j] == t;
                            if j < used0.len() {
                                assert(used0[j] == t);
                                assert(used0.contains(t));
                            }
                        }
                        if self.slot_used(t) {
                            if t == s {
                                assert(used1[used0.len() as int] == s);
                            } else {
                                assert(used0.contains(t));
                                let j = choose|j: int| 0 <= j < used0.len() && used0[j] == t;
                                assert(used1[j] == t);
                            }
                        }
                    }
                    assert forall|t: usize| #[trigger]
                        free1.contains(t) <==> (t < self.capacity() && !self.slot_used(t)) by {
                        if free1.contains(t) {
                            let j = choose|j: int| 0 <= j < free1.len() && free1[j] == t;
                            assert(free0[j] == t);
                            assert(free0.contains(t));
                            assert(t != s);
                        }
                        if t < self.capacity() && !self.slot_used(t) {
                            assert(free0.contains(t));
                            let j = choose|j: int| 0 <= j < free0.len() && free0[j] == t;
                            assert(j < free1.len());
                            assert(free1[j] == t);
                        }
                    }
                    assert(free1.no_duplicates());
                    assert(used1.no_duplicates()) by {
                        assert(!used0.contains(s));
                    }
                }
                Some(s)
            },
        }
    }

    /// Gives `slot` back to the free slots, where it will be the next to be
    /// handed out. Returns whether the slot was in use; where it was not,
    /// nothing changes.
    pub fn release(&mut self, slot: usize) -> (r: bool)
        requires
            old(self).wf(),
        ensures
            final(self).wf(),
            r == old(self).slot_used(slot),
            !r ==> *final(self) == *old(self),
            r ==> final(self).released_from(old(self), slot),
    {
        if !self.is_used(slot) {
            return false;
        }
        proof {
            lemma_first_index_of(old(self).used_slots(), slot);
            assert(old(self).used_slots().contains(slot));
        }
        let removed = self.full_list.remove(slot);
        self.empty_list.append(slot);
        self.in_use[slot] = false;
        self.num_empty_elements = self.num_empty_elements + 1;
        self.num_full_elements = self.num_full_elements - 1;
        proof {
            let free0 = old(self).free_slots();
            let used0 = old(self).used_slots();
            let free1 = self.free_slots();
            let used1 = self.used_slots();
            let k = first_index_of(used0, slot);
            assert(used1 == used0.remove(k));
            assert forall|t: usize| #[trigger] used1.contains(t) <==> self.slot_used(t) by {
                if used1.contains(t) {
                    let j = choose|j: int| 0 <= j < used1.len() && used1[j] == t;
                    if j < k {
                        assert(used0[j] == t);
                    } else {
                        assert(used0[j + 1] == t);
                    }
                    assert(used0.contains(t));
                    assert(t != slot);
                }
                if self.slot_used(t) {
                    assert(used0.contains(t));
                    let j = choose|j: int| 0 <= j < used0.len() && used0[j] == t;
                    if j < k {
                        assert(used1[j] == t);
                    } else {
                        assert(used1[j - 1] == t);
                    }
                }
            }
            assert forall|t: usize| #[trigger]
                free1.contains(t) <==> (t < self.capacity() && !self.slot_used(t)) by {
                if free1.contains(t) {
                    let j = choose|j: int| 0 <= j < free1.len() && free1[j] == t;
                    if j < free0.len() {
                        assert(free0[j] == t);
                        assert(free0.contains(t));
                    }
                }
                if t < self.capacity() && !self.slot_used(t) {
                    if t == slot {
                        assert(free1[free0.len() as int] == slot);
                    } else {
                        assert(free0.contains(t));
                        let j = choose|j: int| 0 <= j < free0.len() && free0[j] == t;
                        assert(free1[j] == t);
                    }
                }
            }
            assert(free1.no_duplicates()) by {
                assert(!free0.contains(slot));
            }
            assert(used1.no_duplicates());
        }
        true
    }
}

/// In a valid pool the free slots and the slots in use add up to the
/// capacity, and every slot is free or in use and not both.
pub proof fn lemma_pool_counts(pool: &MetaPool)
    requires
        pool.wf(),
    ensures
        pool.free_count() + pool.used_count() == pool.capacity(),
        forall|s: usize|
            s < pool.capacity() ==> (#[trigger] pool.free_slots().contains(s)
                <==> !pool.used_slots().contains(s)),
{
    assert forall|s: usize| s < pool.capacity() implies (#[trigger] pool.free_slots().contains(s)
        <==> !pool.used_slots().contains(s)) by {
        assert(pool.used_slots().contains(s) <==> pool.slot_used(s));
    }
}

/// Taking a slot into use and giving it back leaves a pool with the free
/// slots and the slots in use that it had before, in the same order, and so
/// with the same counts.
pub proof fn lemma_acquire_then_release(
    before: &MetaPool,
    between: &MetaPool,
    after: &MetaPool,
    slot: usize,
)
    requires
        before.wf(),
        between.acquired_from(before, slot),
        after.released_from(between, slot),
    ensures
        after.free_slots() == before.free_slots(),
        after.used_slots() == before.used_slots(),
        after.free_count() == before.free_count(),
        after.used_count() == before.used_count(),
        forall|t: usize| after.slot_used(t) == before.slot_used(t),
{
    let used0 = before.used_slots();
    let used1 = between.used_slots();
    lemma_first_index_of(used1, slot);
    assert(used1[used0.len() as int] == slot);
    let k = first_index_of(used1, slot);
    if k < used0.len() {
        assert(used0[k] == slot);
        assert(used0.contains(slot));
    }
    assert(k == used0.len());
    assert(used1.remove(k) =~= used0);
    let free0 = before.free_slots();
    assert(free0.drop_last().push(slot) =~= free0);
}

} // verus!
