//! Copying lists and records from one batch into another: the one way by
//! which what was made in the pools of one batch comes into those of
//! another.
//!
//! Each operation is done as a whole or not at all: where the pools of the
//! receiving batch have not room for every record of the copy, nothing is
//! copied and nothing changes.

use crate::batch::BatchMeta;
use crate::kind::{Kind, NodeRef};
use crate::list::SlotList;
use crate::subtree::lemma_payload;
use vstd::prelude::*;

verus! {

impl BatchMeta {
    /// Whether copies of the records of kind `ck` that `list` names in
    /// `src` can be added to the list of `at` in this batch: `at` is in use
    /// and has a list for that kind, every entry of `list` is in use in
    /// `src`, and the pools of this batch have room for each record of the
    /// copies.
    pub open spec fn can_copy_list(
        &self,
        src: &BatchMeta,
        list: Seq<usize>,
        ck: Kind,
        at: NodeRef,
    ) -> bool {
        &&& self.live(at)
        &&& at.kind.may_hold(ck)
        &&& src.all_live(list, ck)
        &&& self.has_room(|k: Kind| src.count_list(list, ck, list.len(), k))
    }

    /// Whether a copy of the record `s` of `src` with everything below it
    /// can be put into the record `d` of this batch: both are in use and of
    /// the same kind, `d` holds nothing in its lists, and the pools of this
    /// batch have room for each record below `s`.
    pub open spec fn can_copy_into(&self, src: &BatchMeta, s: NodeRef, d: NodeRef) -> bool {
        &&& s.kind == d.kind
        &&& s.kind != Kind::Batch
        &&& src.live(s)
        &&& self.live(d)
        &&& self.node(d).childless()
        &&& self.has_room(|k: Kind| src.count_under(s, k))
    }

    /// Whether this batch came from `old` by putting into the record `d` a
    /// copy of the record `s` of `src` with everything below it. The record
    /// keeps its place: its owner is the same. It holds what a copy of the
    /// record of `s` keeps, with the counts of its own lists, and so names
    /// no parent; nor does any record below it.
    pub open spec fn copied_into(
        &self,
        old: &BatchMeta,
        src: &BatchMeta,
        s: NodeRef,
        d: NodeRef,
    ) -> bool {
        &&& self.grown(old, d, s.kind.height())
        &&& forall|q: NodeRef|
            #[trigger] self.live(q) && !old.live(q) ==> q.kind.height() < s.kind.height()
        &&& self.live(d)
        &&& self.owner(d) == old.owner(d)
        &&& self.node(d).generation == old.node(d).generation
        &&& self.record(d).uncounted() == src.record(s).payload()
        &&& self.subtree(d) == src.subtree(s)
        &&& self.spent(old, |k: Kind| src.count_under(s, k))
    }

    /// Whether every entry of `list` is the slot of a record of kind `ck`
    /// that is in use.
    pub fn is_all_live(&self, list: &SlotList, ck: Kind) -> (r: bool)
        ensures
            r == self.all_live(list@, ck),
    {
        let mut i: usize = 0;
        while i < list.len()
            invariant
                i <= list@.len(),
                forall|j: int|
                    0 <= j < i ==> self.live(NodeRef { kind: ck, slot: #[trigger] list@[j] }),
            decreases list@.len() - i,
        {
            let slot = match list.get(i) {
                Some(s) => s,
                None => {
                    return false;
                },
            };
            if !self.is_live(NodeRef { kind: ck, slot }) {
                return false;
            }
            i += 1;
        }
        true
    }

    /// Whether the pool of kind `k` of this batch has room for each record
    /// of that kind among the records of kind `ck` that `list` names in
    /// `src` and everything below them.
    fn has_room_for_list(&self, src: &BatchMeta, list: &SlotList, ck: Kind, k: Kind) -> (r: bool)
        requires
            self.wf(),
            src.wf(),
            src.all_live(list@, ck),
            k != Kind::Batch,
        ensures
            r == (src.count_list(list@, ck, list@.len(), k) <= self.pool(k).free_count()),
    {
        assert(self.pool(k).wf());
        let free = self.pool_ref(k).num_empty_elements() as usize;
        src.fits_list(list, ck, k, free).is_some()
    }

    /// Whether the pool of kind `k` of this batch has room for each record
    /// of that kind below the record `s` of `src`.
    fn has_room_under(&self, src: &BatchMeta, s: NodeRef, k: Kind) -> (r: bool)
        requires
            self.wf(),
            src.wf(),
            src.live(s),
            k != Kind::Batch,
        ensures
            r == (src.count_under(s, k) <= self.pool(k).free_count()),
    {
        assert(self.pool(k).wf());
        let free = self.pool_ref(k).num_empty_elements() as usize;
        src.fits_under(s, k, free).is_some()
    }

    /// Adds to the list of `at` in `dst` copies of the records of kind `ck`
    /// that `list` names in `src`, each with everything below it, in the
    /// order of `list`. Returns whether that was done; where it was not,
    /// nothing has changed.
    pub fn copy_list(
        src: &BatchMeta,
        list: &SlotList,
        ck: Kind,
        dst: &mut BatchMeta,
        at: NodeRef,
    ) -> (r: bool)
        requires
            src.wf(),
            old(dst).wf(),
        ensures
            final(dst).wf(),
            r == old(dst).can_copy_list(src, list@, ck, at),
            r ==> final(dst).appended(old(dst), src, list@, ck, at, list@.len()),
            !r ==> *final(dst) == *old(dst),
    {
        if !dst.is_live(at) || !at.kind.can_hold(ck) || !src.is_all_live(list, ck) {
            return false;
        }
        let ghost needed = |k: Kind| src.count_list(list@, ck, list@.len(), k);
        if !dst.has_room_for_list(src, list, ck, Kind::Frame) {
            assert(!(needed(Kind::Frame) <= dst.pool(Kind::Frame).free_count()));
            return false;
        }
        if !dst.has_room_for_list(src, list, ck, Kind::Object) {
            assert(!(needed(Kind::Object) <= dst.pool(Kind::Object).free_count()));
            return false;
        }
        if !dst.has_room_for_list(src, list, ck, Kind::Classifier) {
            assert(!(needed(Kind::Classifier) <= dst.pool(Kind::Classifier).free_count()));
            return false;
        }
        if !dst.has_room_for_list(src, list, ck, Kind::Display) {
            assert(!(needed(Kind::Display) <= dst.pool(Kind::Display).free_count()));
            return false;
        }
        if !dst.has_room_for_list(src, list, ck, Kind::User) {
            assert(!(needed(Kind::User) <= dst.pool(Kind::User).free_count()));
            return false;
        }
        if !dst.has_room_for_list(src, list, ck, Kind::Label) {
            assert(!(needed(Kind::Label) <= dst.pool(Kind::Label).free_count()));
            return false;
        }
        proof {
            assert forall|k: Kind| k != Kind::Batch implies needed(k) <= (#[trigger] dst.pool(
                k,
            )).free_count() by {
                match k {
                    Kind::Batch => {},
                    Kind::Frame => {},
                    Kind::Object => {},
                    Kind::Classifier => {},
                    Kind::Display => {},
                    Kind::User => {},
                    Kind::Label => {},
                }
            }
        }
        Self::copy_list_into(src, list, ck, dst, at);
        true
    }

    /// Whether the node `r`, which is in use, holds nothing in its lists.
    fn is_childless(&self, r: NodeRef) -> (b: bool)
        requires
            self.wf(),
            self.live(r),
        ensures
            b == self.node(r).childless(),
    {
        proof {
            self.lemma_live_in_range(r);
        }
        let n = self.node_ref(r);
        let b = n.list(Kind::Frame).is_empty() && n.list(Kind::Object).is_empty() && n.list(
            Kind::Classifier,
        ).is_empty() && n.list(Kind::Display).is_empty() && n.list(Kind::User).is_empty()
            && n.list(Kind::Label).is_empty();
        proof {
            if b {
                assert forall|k: Kind| #[trigger]
                    self.node(r).children(k) == Seq::<usize>::empty() by {
                    assert(self.node(r).children(k) =~= Seq::<usize>::empty());
                }
            } else {
                if self.node(r).childless() {
                    assert(self.node(r).children(Kind::Frame) == Seq::<usize>::empty());
                    assert(self.node(r).children(Kind::Object) == Seq::<usize>::empty());
                    assert(self.node(r).children(Kind::Classifier) == Seq::<usize>::empty());
                    assert(self.node(r).children(Kind::Display) == Seq::<usize>::empty());
                    assert(self.node(r).children(Kind::User) == Seq::<usize>::empty());
                    assert(self.node(r).children(Kind::Label) == Seq::<usize>::empty());
                }
            }
        }
        b
    }

    /// Puts into the record `d` of `dst`, which holds nothing in its
    /// lists, a copy of the record `s` of `src` with everything below it.
    /// Returns whether that was done; where it was not, nothing has
    /// changed.
    pub fn copy_record(src: &BatchMeta, s: NodeRef, dst: &mut BatchMeta, d: NodeRef) -> (r: bool)
        requires
            src.wf(),
            old(dst).wf(),
        ensures
            final(dst).wf(),
            r == old(dst).can_copy_into(src, s, d),
            r ==> final(dst).copied_into(old(dst), src, s, d),
            !r ==> *final(dst) == *old(dst),
    {
        if !(s.kind == d.kind) || s.kind == Kind::Batch || !src.is_live(s) || !dst.is_live(d) {
            return false;
        }
        if !dst.is_childless(d) {
            return false;
        }
        let ghost needed = |k: Kind| src.count_under(s, k);
        if !dst.has_room_under(src, s, Kind::Frame) {
            assert(!(needed(Kind::Frame) <= dst.pool(Kind::Frame).free_count()));
            return false;
        }
        if !dst.has_room_under(src, s, Kind::Object) {
            assert(!(needed(Kind::Object) <= dst.pool(Kind::Object).free_count()));
            return false;
        }
        if !dst.has_room_under(src, s, Kind::Classifier) {
            assert(!(needed(Kind::Classifier) <= dst.pool(Kind::Classifier).free_count()));
            return false;
        }
        if !dst.has_room_under(src, s, Kind::Display) {
            assert(!(needed(Kind::Display) <= dst.pool(Kind::Display).free_count()));
            return false;
        }
        if !dst.has_room_under(src, s, Kind::User) {
            assert(!(needed(Kind::User) <= dst.pool(Kind::User).free_count()));
            return false;
        }
        if !dst.has_room_under(src, s, Kind::Label) {
            assert(!(needed(Kind::Label) <= dst.pool(Kind::Label).free_count()));
            return false;
        }
        proof {
            assert forall|k: Kind| k != Kind::Batch implies needed(k) <= (#[trigger] dst.pool(
                k,
            )).free_count() by {
                match k {
                    Kind::Batch => {},
                    Kind::Frame => {},
                    Kind::Object => {},
                    Kind::Classifier => {},
                    Kind::Display => {},
                    Kind::User => {},
                    Kind::Label => {},
                }
            }
            src.lemma_live_in_range(s);
            assert(src.node_wf(s));
            lemma_payload(src.record(s), Kind::Object, 0);
        }
        let record = src.node_ref(s).record.duplicate();
        let rewritten = dst.replace_record(d, record);
        let ghost mid = *dst;
        proof {
            assert(rewritten);
            assert(mid.pool(d.kind) == old(dst).pool(d.kind));
            assert(mid.live(d));
            old(dst).lemma_live_in_range(d);
            assert(mid.node(d).childless()) by {
                assert forall|k: Kind| #[trigger] mid.node(d).children(k) == Seq::<
                    usize,
                >::empty() by {
                    assert(old(dst).node(d).children(k) == Seq::<usize>::empty());
                }
            }
            assert forall|k: Kind| k != Kind::Batch implies needed(k) <= (#[trigger] mid.pool(
                k,
            )).free_count() by {
                assert(mid.pool(k) == old(dst).pool(k));
            }
            assert(old(dst).node(d).children(Kind::Object) == Seq::<usize>::empty());
            assert(old(dst).node(d).children(Kind::Label) == Seq::<usize>::empty());
            lemma_payload(src.record(s).payload(), Kind::Object, 0);
            lemma_payload(src.record(s).payload(), Kind::Label, 0);
            assert(mid.record(d) == src.record(s).payload());
        }
        Self::fill(src, s, dst, d);
        proof {
            let now = *dst;
            assert(now.subtree(d) == src.subtree(s));
            assert forall|q: NodeRef| #[trigger] old(dst).live(q) implies now.live(q) by {
                assert(mid.pool(q.kind) == old(dst).pool(q.kind));
                assert(mid.live(q));
            }
            assert forall|q: NodeRef| q != d && old(dst).live(q) implies #[trigger] now.node(q)
                == old(dst).node(q) by {
                assert(mid.pool(q.kind) == old(dst).pool(q.kind));
                assert(mid.live(q));
                old(dst).lemma_live_in_range(q);
                assert(mid.node(q) == old(dst).node(q));
                assert(now.node(q) == mid.node(q));
            }
            assert forall|q: NodeRef| #[trigger]
                now.live(q) && !old(dst).live(q) implies q.kind.height() < s.kind.height() by {
                assert(mid.pool(q.kind) == old(dst).pool(q.kind));
                assert(now.live(q) && !mid.live(q));
            }
            assert forall|k: Kind| #[trigger] now.nodes(k).len() == old(dst).nodes(k).len() by {
                assert(mid.nodes(k).len() == old(dst).nodes(k).len());
            }
            assert forall|k: Kind| k != Kind::Batch implies (#[trigger] now.pool(
                k,
            )).free_count() + needed(k) == old(dst).pool(k).free_count() by {
                assert(mid.pool(k) == old(dst).pool(k));
                assert(now.pool(k).free_count() + src.count_under(s, k) == mid.pool(
                    k,
                ).free_count());
            }
        }
        true
    }
}

} // verus!
