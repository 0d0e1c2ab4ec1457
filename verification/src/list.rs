//! Ordered lists of slot indices.

use core::marker::PhantomData;
use vstd::prelude::*;

verus! {

/// An ordered sequence of slot indices.
///
/// The list does not own the records it names: taking an entry out of a list
/// releases nothing.
#[derive(Debug)]
pub struct SlotList {
    slots: Vec<usize>,
}

impl View for SlotList {
    type V = Seq<usize>;

    closed spec fn view(&self) -> Seq<usize> {
        self.slots@
    }
}

/// The index of the first occurrence of `slot` in `s`, or the length of `s`
/// where it does not occur.
pub open spec fn first_index_of(s: Seq<usize>, slot: usize) -> int
    decreases s.len(),
{
    if s.len() == 0 {
        0
    } else if s[0] == slot {
        0
    } else {
        1 + first_index_of(s.subrange(1, s.len() as int), slot)
    }
}

/// `first_index_of` is the least index that holds `slot`, and the length of
/// the sequence exactly where no index does.
pub proof fn lemma_first_index_of(s: Seq<usize>, slot: usize)
    ensures
        0 <= first_index_of(s, slot) <= s.len(),
        first_index_of(s, slot) < s.len() ==> s[first_index_of(s, slot)] == slot,
        forall|i: int| 0 <= i < first_index_of(s, slot) ==> s[i] != slot,
        s.contains(slot) <==> first_index_of(s, slot) < s.len(),
    decreases s.len(),
{
    if s.len() == 0 {
    } else if s[0] == slot {
    } else {
        let rest = s.subrange(1, s.len() as int);
        lemma_first_index_of(rest, slot);
        let k = first_index_of(rest, slot);
        assert forall|i: int| 0 <= i < 1 + k implies s[i] != slot by {
            if i > 0 {
                assert(rest[i - 1] == s[i]);
            }
        }
        if k < rest.len() {
            assert(rest[k] == s[k + 1]);
        }
        if s.contains(slot) {
            let j = choose|j: int| 0 <= j < s.len() && s[j] == slot;
            assert(rest[j - 1] == slot);
            assert(rest.contains(slot));
        }
    }
}

/// A sequence without repetitions, all of whose entries occur in another
/// sequence, is no longer than that one.
pub proof fn lemma_no_duplicates_bounded(a: Seq<usize>, b: Seq<usize>)
    requires
        a.no_duplicates(),
        forall|i: int| 0 <= i < a.len() ==> b.contains(#[trigger] a[i]),
    ensures
        a.len() <= b.len(),
    decreases a.len(),
{
    if a.len() > 0 {
        let x = a.last();
        let shorter = a.drop_last();
        assert(b.contains(a[a.len() - 1]));
        let j = choose|j: int| 0 <= j < b.len() && b[j] == x;
        let rest = b.remove(j);
        assert forall|i: int| 0 <= i < shorter.len() implies rest.contains(
            #[trigger] shorter[i],
        ) by {
            assert(shorter[i] == a[i]);
            assert(b.contains(a[i]));
            let m = choose|m: int| 0 <= m < b.len() && b[m] == a[i];
            assert(a[i] != x);
            if m < j {
                assert(rest[m] == a[i]);
            } else {
                assert(rest[m - 1] == a[i]);
            }
        }
        lemma_no_duplicates_bounded(shorter, rest);
    }
}

/// Taking the first occurrence of an entry out of a sequence without
/// repetitions leaves a sequence without repetitions that holds every other
/// entry and not that one.
pub proof fn lemma_remove_first(s: Seq<usize>, slot: usize)
    requires
        s.no_duplicates(),
        s.contains(slot),
    ensures
        s.remove(first_index_of(s, slot)).no_duplicates(),
        !s.remove(first_index_of(s, slot)).contains(slot),
        forall|x: usize| x != slot ==> (#[trigger] s.remove(first_index_of(s, slot)).contains(x)
            <==> s.contains(x)),
        s.remove(first_index_of(s, slot)).len() == s.len() - 1,
{
    lemma_first_index_of(s, slot);
    let k = first_index_of(s, slot);
    let r = s.remove(k);
    assert forall|x: usize| x != slot implies (#[trigger] r.contains(x) <==> s.contains(x)) by {
        if r.contains(x) {
            let j = choose|j: int| 0 <= j < r.len() && r[j] == x;
            if j < k {
                assert(s[j] == x);
            } else {
                assert(s[j + 1] == x);
            }
        }
        if s.contains(x) {
            let j = choose|j: int| 0 <= j < s.len() && s[j] == x;
            if j < k {
                assert(r[j] == x);
            } else {
                assert(r[j - 1] == x);
            }
        }
    }
    if r.contains(slot) {
        let j = choose|j: int| 0 <= j < r.len() && r[j] == slot;
        if j < k {
            assert(s[j] == slot);
        } else {
            assert(s[j + 1] == slot);
        }
    }
}

impl SlotList {
    /// An empty list.
    pub fn new() -> (r: Self)
        ensures
            r@ == Seq::<usize>::empty(),
    {
        SlotList { slots: Vec::new() }
    }

    /// The number of entries.
    pub fn len(&self) -> (r: usize)
        ensures
            r == self@.len(),
    {
        self.slots.len()
    }

    /// Whether the list has no entry.
    pub fn is_empty(&self) -> (r: bool)
        ensures
            r == (self@.len() == 0),
    {
        self.slots.len() == 0
    }

    /// The entry at `index`, or `None` past the end.
    pub fn get(&self, index: usize) -> (r: Option<usize>)
        ensures
            r == (if index < self@.len() {
                Some(self@[index as int])
            } else {
                None
            }),
    {
        if index < self.slots.len() {
            Some(self.slots[index])
        } else {
            None
        }
    }

    /// The index of the first entry equal to `slot`, or `None` where the list
    /// does not hold it.
    pub fn position(&self, slot: usize) -> (r: Option<usize>)
        ensures
            r == (if self@.contains(slot) {
                Some(first_index_of(self@, slot) as usize)
            } else {
                None
            }),
            r is Some ==> r.unwrap() < self@.len() && self@[r.unwrap() as int] == slot,
            r is Some ==> r.unwrap() as int == first_index_of(self@, slot),
    {
        proof {
            lemma_first_index_of(self@, slot);
        }
        let mut i: usize = 0;
        while i < self.slots.len()
            invariant
                i <= self.slots.len(),
                forall|j: int| 0 <= j < i ==> self.slots@[j] != slot,
                0 <= first_index_of(self@, slot) <= self@.len(),
                first_index_of(self@, slot) < self@.len() ==> self@[first_index_of(self@, slot)]
                    == slot,
                forall|j: int| 0 <= j < first_index_of(self@, slot) ==> self@[j] != slot,
                self@.contains(slot) <==> first_index_of(self@, slot) < self@.len(),
            decreases self.slots.len() - i,
        {
            if self.slots[i] == slot {
                assert(self@[i as int] == slot);
                assert(self@.contains(slot));
                return Some(i);
            }
            i += 1;
        }
        assert(!self@.contains(slot)) by {
            if self@.contains(slot) {
                let j = choose|j: int| 0 <= j < self@.len() && self@[j] == slot;
                assert(self.slots@[j] != slot);
            }
        }
        None
    }

    /// Whether some entry equals `slot`.
    pub fn contains(&self, slot: usize) -> (r: bool)
        ensures
            r == self@.contains(slot),
    {
        self.position(slot).is_some()
    }

    /// Appends `slot` as the last entry.
    pub fn append(&mut self, slot: usize)
        ensures
            final(self)@ == old(self)@.push(slot),
    {
        self.slots.push(slot);
    }

    /// Takes the first entry equal to `slot` out of the list and keeps the
    /// order of the others. Returns whether the list held it.
    pub fn remove(&mut self, slot: usize) -> (r: bool)
        ensures
            r == old(self)@.contains(slot),
            r ==> final(self)@ == old(self)@.remove(first_index_of(old(self)@, slot)),
            !r ==> final(self)@ == old(self)@,
    {
        match self.position(slot) {
            Some(i) => {
                self.slots.remove(i);
                true
            },
            None => false,
        }
    }

    /// Takes the last entry out of the list, or returns `None` where the
    /// list is empty.
    pub fn pop(&mut self) -> (r: Option<usize>)
        ensures
            old(self)@.len() == 0 ==> r is None && final(self)@ == old(self)@,
            old(self)@.len() > 0 ==> r == Some(old(self)@.last()),
            old(self)@.len() > 0 ==> final(self)@ == old(self)@.drop_last(),
    {
        let r = self.slots.pop();
        r
    }

    /// Takes every entry out of the list.
    pub fn clear(&mut self)
        ensures
            final(self)@ == Seq::<usize>::empty(),
    {
        self.slots.clear();
    }

    /// A list of its own with the same entries in the same order.
    pub fn duplicate(&self) -> (r: SlotList)
        ensures
            r@ == self@,
    {
        SlotList { slots: self.to_vec() }
    }

    /// The entries in order, as a vector of their own.
    pub fn to_vec(&self) -> (r: Vec<usize>)
        ensures
            r@ == self@,
    {
        let mut out: Vec<usize> = Vec::new();
        let mut i: usize = 0;
        while i < self.slots.len()
            invariant
                i <= self.slots.len(),
                out@ == self.slots@.subrange(0, i as int),
            decreases self.slots.len() - i,
        {
            out.push(self.slots[i]);
            assert(self.slots@.subrange(0, i as int).push(self.slots@[i as int])
                == self.slots@.subrange(0, i + 1));
            i += 1;
        }
        assert(self.slots@.subrange(0, self.slots@.len() as int) == self.slots@);
        out
    }
}

/// A typed, read-only view of a list of slot indices: every entry is the slot
/// of a record of kind `T`.
pub struct MetaList<'a, T> {
    list: &'a SlotList,
    phantom: PhantomData<T>,
}

impl<'a, T> View for MetaList<'a, T> {
    type V = Seq<usize>;

    closed spec fn view(&self) -> Seq<usize> {
        self.list@
    }
}

impl<'a, T> MetaList<'a, T> {
    /// The view of `list` as a list of records of kind `T`.
    pub fn new(list: &'a SlotList) -> (r: MetaList<'a, T>)
        ensures
            r@ == list@,
    {
        MetaList { list, phantom: PhantomData }
    }

    /// The list that this is a view of.
    pub fn slots(&self) -> (r: &'a SlotList)
        ensures
            r@ == self@,
    {
        self.list
    }

    /// The number of entries.
    pub fn len(&self) -> (r: usize)
        ensures
            r == self@.len(),
    {
        self.list.len()
    }

    /// The entry at `index`, or `None` past the end.
    pub fn get(&self, index: usize) -> (r: Option<usize>)
        ensures
            r == (if index < self@.len() {
                Some(self@[index as int])
            } else {
                None
            }),
    {
        self.list.get(index)
    }

    /// Whether some entry equals `slot`.
    pub fn contains(&self, slot: usize) -> (r: bool)
        ensures
            r == self@.contains(slot),
    {
        self.list.contains(slot)
    }

    /// The entries in order, as a vector of their own.
    pub fn to_vec(&self) -> (r: Vec<usize>)
        ensures
            r@ == self@,
    {
        self.list.to_vec()
    }

    /// A cursor at the first entry. Each call gives a new cursor, so a walk
    /// can be started again at any time.
    pub fn iter(&self) -> (r: MetaListIterator<'a, T>)
        ensures
            r.entries() == self@,
            r.position() == 0,
    {
        MetaListIterator { list: self.list, current: 0, phantom: PhantomData }
    }
}

/// A forward-only cursor over the entries of a [`MetaList`].
pub struct MetaListIterator<'a, T> {
    list: &'a SlotList,
    current: usize,
    phantom: PhantomData<T>,
}

impl<'a, T> MetaListIterator<'a, T> {
    /// The entries of the list that the cursor walks.
    pub closed spec fn entries(&self) -> Seq<usize> {
        self.list@
    }

    /// The number of entries that the cursor has handed out.
    pub closed spec fn position(&self) -> nat {
        self.current as nat
    }

    /// The next entry, or `None` once every entry has been handed out.
    pub fn next(&mut self) -> (r: Option<usize>)
        ensures
            final(self).entries() == old(self).entries(),
            old(self).position() < old(self).entries().len() ==> r == Some(
                old(self).entries()[old(self).position() as int],
            ),
            old(self).position() < old(self).entries().len() ==> final(self).position() == old(
                self
            ).position() + 1,
            old(self).position() >= old(self).entries().len() ==> r is None,
            old(self).position() >= old(self).entries().len() ==> final(self).position() == old(
                self
            ).position(),
    {
        if self.current < self.list.len() {
            let slot = self.list.get(self.current);
            self.current = self.current + 1;
            slot
        } else {
            None
        }
    }
}

} // verus!
