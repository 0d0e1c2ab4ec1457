//! Giving records back to their pools.
//!
//! A record is released together with everything below it: the records in
//! its lists, the records in theirs, and so on. Releasing a user record drops
//! its payload.

use crate::batch::BatchMeta;
use crate::kind::{lemma_may_hold_lowers, Kind, NodeRef};
use crate::list::{first_index_of, lemma_first_index_of};
use crate::node::Node;
use vstd::prelude::*;

verus! {

impl BatchMeta {
    /// Whether this batch came from `old` by releasing records that lay
    /// below `top`, and by nothing else but changes to `top` itself.
    ///
    /// No record has come into use. A record that is still in use, or was
    /// not in use before, is as it was. A record that has left lies lower
    /// than `top`, its record is fresh again, and its owner was `top` or has
    /// left too.
    pub open spec fn shrunk(&self, old: &BatchMeta, top: NodeRef) -> bool {
        &&& self.lock_count() == old.lock_count()
        &&& forall|k: Kind| #[trigger] self.nodes(k).len() == old.nodes(k).len()
        &&& forall|q: NodeRef| #[trigger] self.live(q) ==> old.live(q)
        &&& forall|q: NodeRef|
            q != top && old.in_range(q) && (self.live(q) || !old.live(q)) ==> #[trigger] self.node(
                q,
            ) == old.node(q)
        &&& forall|q: NodeRef|
            #[trigger] old.live(q) && !self.live(q) ==> {
                &&& q.kind.height() < top.kind.height()
                &&& self.node(q).is_fresh(q.kind, old.node(q).generation)
                &&& old.owner(q) is Some
                &&& (old.owner(q) == Some(top) || !self.live(old.owner(q).unwrap()))
            }
    }

    /// Whether the pools of this batch have as many free slots more than
    /// those of `old` as `given` says, kind by kind.
    pub open spec fn regained(&self, old: &BatchMeta, given: spec_fn(Kind) -> nat) -> bool {
        forall|k: Kind|
            k != Kind::Batch ==> (#[trigger] self.pool(k)).free_count() == old.pool(
                k,
            ).free_count() + given(k)
    }

    /// Whether this batch came from `old` by releasing every child of kind
    /// `child` of `parent`, each with everything below it. Each pool has
    /// got back one slot for each record of its kind among them.
    pub open spec fn cleared(&self, old: &BatchMeta, parent: NodeRef, child: Kind) -> bool {
        &&& self.regained(old, |k: Kind| old.count_below(parent, child, k))
        &&& self.shrunk(old, parent)
        &&& self.live(parent)
        &&& self.relisted(old, parent, child, Seq::empty())
        &&& forall|i: int|
            0 <= i < old.children(parent, child).len() ==> !self.live(
                NodeRef { kind: child, slot: #[trigger] old.children(parent, child)[i] },
            )
        &&& forall|q: NodeRef|
            #[trigger] old.live(q) && !self.live(q) && old.owner(q) == Some(parent) ==> q.kind
                == child
    }

    /// Whether this batch came from `old` by releasing `c` with everything
    /// below it.
    ///
    /// No record has come into use and `c` is no longer in use. A record
    /// that is still in use, or was not in use before, is as it was. A
    /// record that has left is fresh again; it is `c`, or it lies lower than
    /// `c` and its owner has left too. Each pool has got back one slot for
    /// each record of its kind among `c` and everything below it.
    pub open spec fn released(&self, old: &BatchMeta, c: NodeRef) -> bool {
        &&& self.regained(old, |k: Kind| old.count(c, k))
        &&& self.lock_count() == old.lock_count()
        &&& forall|k: Kind| #[trigger] self.nodes(k).len() == old.nodes(k).len()
        &&& !self.live(c)
        &&& forall|q: NodeRef| #[trigger] self.live(q) ==> old.live(q)
        &&& forall|q: NodeRef|
            old.in_range(q) && (self.live(q) || !old.live(q)) ==> #[trigger] self.node(q)
                == old.node(q)
        &&& forall|q: NodeRef|
            #[trigger] old.live(q) && !self.live(q) ==> {
                &&& self.node(q).is_fresh(q.kind, old.node(q).generation)
                &&& q == c || {
                    &&& q.kind.height() < c.kind.height()
                    &&& old.owner(q) is Some
                    &&& !self.live(old.owner(q).unwrap())
                }
            }
        &&& old.node(c).childless() ==> self.only_released(old, c)
    }

    /// Whether the pools of this batch are those of `old` but for the slot
    /// of `c`, which its pool has got back.
    pub open spec fn only_released(&self, old: &BatchMeta, c: NodeRef) -> bool {
        &&& self.pool(c.kind).released_from(&old.pool(c.kind), c.slot)
        &&& forall|k: Kind|
            k != c.kind && k != Kind::Batch ==> #[trigger] self.pool(k) == old.pool(k)
    }

    /// Whether `c` can be released: it is a record in use that has no
    /// owner.
    pub open spec fn can_release(&self, c: NodeRef) -> bool {
        &&& c.kind != Kind::Batch
        &&& self.live(c)
        &&& self.owner(c) is None
    }

    /// Two rounds of releasing below the same node make one.
    pub proof fn lemma_shrunk_twice(&self, mid: &BatchMeta, old: &BatchMeta, top: NodeRef)
        requires
            old.pools_wf(),
            mid.pools_wf(),
            mid.shrunk(old, top),
            self.shrunk(mid, top),
        ensures
            self.shrunk(old, top),
    {
        assert forall|q: NodeRef|
            q != top && old.in_range(q) && (self.live(q) || !old.live(q)) implies #[trigger]
            self.node(q) == old.node(q) by {
            assert(mid.nodes(q.kind).len() == old.nodes(q.kind).len());
            if self.live(q) {
                assert(mid.live(q));
            } else {
                if mid.live(q) {
                    assert(old.live(q));
                }
            }
            assert(mid.node(q) == old.node(q));
            assert(self.node(q) == mid.node(q));
        }
        assert forall|q: NodeRef| #[trigger] old.live(q) && !self.live(q) implies {
            &&& q.kind.height() < top.kind.height()
            &&& self.node(q).is_fresh(q.kind, old.node(q).generation)
            &&& old.owner(q) is Some
            &&& (old.owner(q) == Some(top) || !self.live(old.owner(q).unwrap()))
        } by {
            old.lemma_live_in_range(q);
            assert(mid.nodes(q.kind).len() == old.nodes(q.kind).len());
            if mid.live(q) {
                assert(mid.live(q) && !self.live(q));
                assert(q != top);
                assert(mid.node(q) == old.node(q));
                let o = old.owner(q).unwrap();
                if o != top {
                    assert(!self.live(o));
                }
            } else {
                assert(old.live(q) && !mid.live(q));
                assert(q != top);
                assert(self.node(q) == mid.node(q));
                let o = old.owner(q).unwrap();
                if o != top {
                    if self.live(o) {
                        assert(mid.live(o));
                    }
                }
            }
        }
        assert forall|q: NodeRef| #[trigger] self.live(q) implies old.live(q) by {
            assert(mid.live(q));
        }
    }

    /// Releasing below a record does not change the count below those of
    /// its children whose list stays as it is.
    proof fn lemma_shrunk_keeps_count_below(
        &self,
        later: &BatchMeta,
        c: NodeRef,
        ck: Kind,
        k: Kind,
    )
        requires
            self.wf(),
            later.wf(),
            self.live(c),
            later.live(c),
            later.shrunk(self, c),
            later.children(c, ck) == self.children(c, ck),
        ensures
            later.count_below(c, ck, k) == self.count_below(c, ck, k),
    {
        assert forall|q: NodeRef, ck2: Kind|
            self.live(q) && later.live(q) && q.kind.height()
                < c.kind.height() implies #[trigger] later.children(q, ck2) == self.children(
            q,
            ck2,
        ) by {
            self.lemma_live_in_range(q);
            assert(later.node(q) == self.node(q));
        }
        self.lemma_count_below_stable(later, c, ck, k);
    }

    /// Whether this batch came from `old` by releasing the last children of
    /// kind `child` of `parent`, each with everything below it: what holds
    /// of the records.
    pub open spec fn clearing_records(
        &self,
        old: &BatchMeta,
        parent: NodeRef,
        child: Kind,
    ) -> bool {
        let list0 = old.children(parent, child);
        let list = self.children(parent, child);
        &&& self.live(parent)
        &&& self.shrunk(old, parent)
        &&& list.len() <= list0.len()
        &&& list == list0.take(list.len() as int)
        &&& self.relisted(old, parent, child, list)
        &&& forall|i: int|
            list.len() <= i < list0.len() ==> !self.live(
                NodeRef { kind: child, slot: #[trigger] list0[i] },
            )
        &&& forall|q: NodeRef|
            #[trigger] old.live(q) && !self.live(q) && old.owner(q) == Some(parent) ==> q.kind
                == child
    }

    /// Whether this batch came from `old` by releasing the last children of
    /// kind `child` of `parent`, each with everything below it: what holds
    /// of the pools.
    pub open spec fn clearing_pools(&self, old: &BatchMeta, parent: NodeRef, child: Kind) -> bool {
        let list0 = old.children(parent, child);
        let list = self.children(parent, child);
        forall|k: Kind|
            k != Kind::Batch ==> (#[trigger] self.pool(k)).free_count() + old.count_list(
                list0,
                child,
                list.len(),
                k,
            ) == old.pool(k).free_count() + old.count_list(list0, child, list0.len(), k)
    }

    /// Before anything is released, nothing has changed.
    proof fn lemma_clearing_starts(&self, parent: NodeRef, child: Kind)
        requires
            self.wf(),
            self.live(parent),
        ensures
            self.clearing_records(self, parent, child),
            self.clearing_pools(self, parent, child),
    {
        self.lemma_live_in_range(parent);
        assert(self.node_wf(parent));
        self.lemma_children_bounded(parent, child);
        let list0 = self.children(parent, child);
        let n = self.node(parent);
        if n.record@.child_count(child) is Some {
            assert(n.record@.child_count(child).unwrap() == n.children(child).len());
        }
        assert(n.record@.with_child_count(child, list0.len() as u32) == n.record@);
        assert(list0.take(list0.len() as int) =~= list0);
    }

    /// Once the list is empty, it has been cleared.
    proof fn lemma_clearing_ends(&self, old: &BatchMeta, parent: NodeRef, child: Kind)
        requires
            old.wf(),
            old.live(parent),
            self.clearing_records(old, parent, child),
            self.clearing_pools(old, parent, child),
            self.children(parent, child).len() == 0,
        ensures
            self.cleared(old, parent, child),
    {
        let list0 = old.children(parent, child);
        assert(self.children(parent, child) =~= Seq::empty());
        old.lemma_live_in_range(parent);
        assert(old.node_wf(parent));
        if list0.len() > 0 {
            let first = NodeRef { kind: child, slot: old.node(parent).children(child)[0] };
            assert(old.live(first) && old.owner(first) == Some(parent));
            assert(old.node_wf(first));
            lemma_may_hold_lowers(parent.kind, child);
        }
        assert forall|k: Kind| k != Kind::Batch implies (#[trigger] self.pool(k)).free_count()
            == old.pool(k).free_count() + old.count_below(parent, child, k) by {
            assert(old.count_list(list0, child, 0, k) == 0);
            if list0.len() == 0 {
                assert(old.count_list(list0, child, list0.len(), k) == 0);
            }
        }
    }

    /// Releasing the last child of the list keeps what holds of the
    /// records while a list is cleared.
    proof fn lemma_clearing_step_records(
        &self,
        apart: &BatchMeta,
        before: &BatchMeta,
        old: &BatchMeta,
        parent: NodeRef,
        d: NodeRef,
    )
        requires
            old.wf(),
            before.wf(),
            apart.wf(),
            old.live(parent),
            before.clearing_records(old, parent, d.kind),
            before.children(parent, d.kind).len() > 0,
            d.slot == before.children(parent, d.kind).last(),
            apart.unlinked(before, parent, d),
            self.released(apart, d),
        ensures
            self.clearing_records(old, parent, d.kind),
            self.children(parent, d.kind) == before.children(parent, d.kind).drop_last(),
    {
        let child = d.kind;
        let list0 = old.children(parent, child);
        let list = before.children(parent, child);
        let len = list.len();
        before.lemma_live_in_range(parent);
        assert(before.node_wf(parent));
        assert(before.node(parent).children(child)[len - 1] == d.slot);
        assert(before.live(d) && before.owner(d) == Some(parent));
        before.lemma_live_in_range(d);
        assert(before.node_wf(d));
        lemma_may_hold_lowers(parent.kind, child);
        lemma_first_index_of(list, d.slot);
        assert(list.contains(d.slot));
        assert(first_index_of(list, d.slot) == len - 1);
        assert(list.remove(len - 1) =~= list.drop_last());
        assert(list.drop_last() =~= list0.take(len - 1));
        assert(apart.pool(parent.kind) == before.pool(parent.kind));
        // The parent lies higher than anything that has left.
        assert(self.live(parent)) by {
            if !self.live(parent) {
                assert(apart.live(parent) && !self.live(parent));
            }
        }
        apart.lemma_live_in_range(parent);
        assert(self.node(parent) == apart.node(parent));
        assert forall|k: Kind| k != child implies #[trigger] self.children(parent, k)
            == old.children(parent, k) by {
            assert(apart.children(parent, k) == before.children(parent, k));
            assert(before.children(parent, k) == old.children(parent, k));
        }
        assert(self.children(parent, child) == list0.take(len - 1));
        assert(self.children(parent, child).len() == len - 1);
        assert(self.relisted(old, parent, child, self.children(parent, child)));
        assert forall|q: NodeRef| #[trigger] self.live(q) implies old.live(q) by {
            assert(apart.live(q));
            assert(apart.pool(q.kind) == before.pool(q.kind));
            assert(before.live(q));
        }
        assert forall|q: NodeRef|
            q != parent && old.in_range(q) && (self.live(q) || !old.live(
                q,
            )) implies #[trigger] self.node(q) == old.node(q) by {
            assert(before.nodes(q.kind).len() == old.nodes(q.kind).len());
            assert(apart.nodes(q.kind).len() == before.nodes(q.kind).len());
            assert(apart.pool(q.kind) == before.pool(q.kind));
            if self.live(q) {
                assert(apart.live(q));
                assert(q != d);
                assert(self.node(q) == apart.node(q));
                assert(apart.node(q) == before.node(q));
                assert(before.live(q));
                assert(before.node(q) == old.node(q));
            } else {
                if before.live(q) {
                    assert(old.live(q));
                }
                assert(!before.live(q));
                assert(!apart.live(q));
                assert(q != d);
                assert(self.node(q) == apart.node(q));
                assert(apart.node(q) == before.node(q));
                assert(before.node(q) == old.node(q));
            }
        }
        assert forall|q: NodeRef| #[trigger] old.live(q) && !self.live(q) implies {
            &&& q.kind.height() < parent.kind.height()
            &&& self.node(q).is_fresh(q.kind, old.node(q).generation)
            &&& old.owner(q) is Some
            &&& (old.owner(q) == Some(parent) || !self.live(old.owner(q).unwrap()))
            &&& (old.owner(q) == Some(parent) ==> q.kind == child)
        } by {
            old.lemma_live_in_range(q);
            assert(before.nodes(q.kind).len() == old.nodes(q.kind).len());
            assert(apart.nodes(q.kind).len() == before.nodes(q.kind).len());
            assert(apart.pool(q.kind) == before.pool(q.kind));
            if before.live(q) {
                assert(apart.live(q) && !self.live(q));
                assert(q != parent);
                assert(before.node(q) == old.node(q));
                if q == d {
                } else {
                    assert(apart.node(q) == before.node(q));
                    let o = apart.owner(q).unwrap();
                    assert(!self.live(o));
                    assert(o != parent);
                }
            } else {
                assert(old.live(q) && !before.live(q));
                assert(q != parent);
                assert(q != d);
                assert(!apart.live(q));
                assert(apart.node(q) == before.node(q));
                assert(self.node(q) == apart.node(q));
                let o = old.owner(q).unwrap();
                if o != parent {
                    assert(!before.live(o));
                    if self.live(o) {
                        assert(apart.live(o));
                    }
                }
            }
        }
        assert forall|i: int| len - 1 <= i < list0.len() implies !self.live(
            NodeRef { kind: child, slot: #[trigger] list0[i] },
        ) by {
            let e = NodeRef { kind: child, slot: list0[i] };
            if i == len - 1 {
                assert(list0.take(len as int)[len - 1] == list0[len - 1]);
                assert(e == d);
            } else {
                assert(!before.live(e));
                if self.live(e) {
                    assert(apart.live(e));
                    assert(apart.pool(child) == before.pool(child));
                }
            }
        }
    }

    /// Releasing the last child of the list keeps what holds of the pools
    /// while a list is cleared.
    proof fn lemma_clearing_step_pools(
        &self,
        apart: &BatchMeta,
        before: &BatchMeta,
        old: &BatchMeta,
        parent: NodeRef,
        d: NodeRef,
    )
        requires
            old.wf(),
            before.wf(),
            apart.wf(),
            old.live(parent),
            before.clearing_records(old, parent, d.kind),
            before.clearing_pools(old, parent, d.kind),
            before.children(parent, d.kind).len() > 0,
            d.slot == before.children(parent, d.kind).last(),
            apart.unlinked(before, parent, d),
            self.released(apart, d),
            self.children(parent, d.kind) == before.children(parent, d.kind).drop_last(),
        ensures
            self.clearing_pools(old, parent, d.kind),
    {
        let child = d.kind;
        let list0 = old.children(parent, child);
        let list = before.children(parent, child);
        let len = list.len();
        before.lemma_live_in_range(parent);
        assert(before.node_wf(parent));
        assert(before.node(parent).children(child)[len - 1] == d.slot);
        assert(before.live(d) && before.owner(d) == Some(parent));
        before.lemma_live_in_range(d);
        assert(before.node_wf(d));
        lemma_may_hold_lowers(parent.kind, child);
        assert(old.live(d));
        assert(apart.pool(child) == before.pool(child));
        assert(apart.live(d));
        assert(list0[len - 1] == d.slot) by {
            assert(list0.take(len as int)[len - 1] == list0[len - 1]);
        }
        assert forall|q: NodeRef, ck2: Kind|
            old.live(q) && apart.live(q) && q.kind.height()
                <= d.kind.height() implies #[trigger] apart.children(q, ck2) == old.children(
            q,
            ck2,
        ) by {
            old.lemma_live_in_range(q);
            assert(apart.pool(q.kind) == before.pool(q.kind));
            assert(before.live(q));
            assert(q != parent);
            assert(before.nodes(q.kind).len() == old.nodes(q.kind).len());
            assert(before.node(q) == old.node(q));
            if q != d {
                assert(apart.node(q) == before.node(q));
            }
        }
        assert forall|k: Kind| k != Kind::Batch implies (#[trigger] self.pool(k)).free_count()
            + old.count_list(list0, child, (len - 1) as nat, k) == old.pool(k).free_count()
            + old.count_list(list0, child, list0.len(), k) by {
            assert(apart.pool(k) == before.pool(k));
            assert(self.pool(k).free_count() == apart.pool(k).free_count() + apart.count(d, k));
            old.lemma_count_stable(apart, d, k);
            assert(old.count_list(list0, child, len as nat, k) == old.count_list(
                list0,
                child,
                (len - 1) as nat,
                k,
            ) + old.count(d, k));
        }
    }

    /// Releases every child of kind `child` of `parent`, each with
    /// everything below it, and leaves that list of `parent` empty. Returns
    /// whether `parent` is in use; where it is not, nothing has changed.
    pub fn clear_meta_list(&mut self, parent: NodeRef, child: Kind) -> (r: bool)
        requires
            old(self).wf(),
        ensures
            final(self).wf(),
            r == old(self).live(parent),
            r ==> final(self).cleared(old(self), parent, child),
            !r ==> *final(self) == *old(self),
            old(self).children(parent, child).len() == 0 ==> *final(self) == *old(self),
        decreases parent.kind.height(), 0nat,
    {
        if !self.is_live(parent) {
            return false;
        }
        proof {
            self.lemma_live_in_range(parent);
            self.lemma_clearing_starts(parent, child);
        }
        if child == Kind::Batch {
            proof {
                assert(self.children(parent, child) =~= Seq::empty());
                self.lemma_clearing_ends(old(self), parent, child);
            }
            return true;
        }
        loop
            invariant
                child != Kind::Batch,
                old(self).wf(),
                old(self).live(parent),
                self.wf(),
                self.clearing_records(old(self), parent, child),
                self.clearing_pools(old(self), parent, child),
                old(self).children(parent, child).len() == 0 ==> *self == *old(self),
            decreases self.children(parent, child).len(),
        {
            proof {
                self.lemma_live_in_range(parent);
            }
            let len = self.node_ref(parent).list(child).len();
            if len == 0 {
                proof {
                    self.lemma_clearing_ends(old(self), parent, child);
                }
                return true;
            }
            let slot = match self.node_ref(parent).list(child).get(len - 1) {
                Some(s) => s,
                None => {
                    proof {
                        self.lemma_clearing_ends(old(self), parent, child);
                    }
                    return true;
                },
            };
            let d = NodeRef { kind: child, slot };
            let ghost before = *self;
            proof {
                assert(before.node_wf(parent));
                assert(before.node(parent).children(child)[len - 1] == slot);
                assert(before.live(d) && before.owner(d) == Some(parent));
                assert(before.children(parent, child).contains(slot));
                assert(before.node_wf(d));
                lemma_may_hold_lowers(parent.kind, child);
            }
            let unlinked = self.unlink(parent, d);
            let ghost apart = *self;
            proof {
                assert(unlinked);
                assert(apart.pool(child) == before.pool(child));
                assert(apart.live(d));
                assert(apart.owner(d) is None);
            }
            self.release_subtree(d);
            proof {
                self.lemma_clearing_step_records(&apart, &before, old(self), parent, d);
                self.lemma_clearing_step_pools(&apart, &before, old(self), parent, d);
            }
        }
    }

    /// Whether this batch came from `old` by releasing everything below
    /// `c`, which is left in use with nothing in its lists.
    pub open spec fn emptied(&self, old: &BatchMeta, c: NodeRef) -> bool {
        &&& self.shrunk(old, c)
        &&& self.live(c)
        &&& self.owner(c) == old.owner(c)
        &&& self.node(c).generation == old.node(c).generation
        &&& self.node(c).childless()
        &&& self.regained(old, |k: Kind| old.count_under(c, k))
        &&& old.node(c).childless() ==> *self == *old
    }

    /// Puts together what clearing the lists of a record one after another
    /// has shown.
    proof fn lemma_emptied(
        c: NodeRef,
        s0: &BatchMeta,
        s1: &BatchMeta,
        s2: &BatchMeta,
        s3: &BatchMeta,
        s4: &BatchMeta,
        s5: &BatchMeta,
        s6: &BatchMeta,
    )
        requires
            s0.wf(),
            s1.wf(),
            s2.wf(),
            s3.wf(),
            s4.wf(),
            s5.wf(),
            s6.wf(),
            s0.live(c),
            s1.cleared(s0, c, Kind::Frame),
            s2.cleared(s1, c, Kind::Object),
            s3.cleared(s2, c, Kind::Classifier),
            s4.cleared(s3, c, Kind::Display),
            s5.cleared(s4, c, Kind::User),
            s6.cleared(s5, c, Kind::Label),
            s0.children(c, Kind::Frame).len() == 0 ==> *s1 == *s0,
            s1.children(c, Kind::Object).len() == 0 ==> *s2 == *s1,
            s2.children(c, Kind::Classifier).len() == 0 ==> *s3 == *s2,
            s3.children(c, Kind::Display).len() == 0 ==> *s4 == *s3,
            s4.children(c, Kind::User).len() == 0 ==> *s5 == *s4,
            s5.children(c, Kind::Label).len() == 0 ==> *s6 == *s5,
        ensures
            s6.emptied(s0, c),
    {
        s2.lemma_shrunk_twice(s1, s0, c);
        s3.lemma_shrunk_twice(s2, s0, c);
        s4.lemma_shrunk_twice(s3, s0, c);
        s5.lemma_shrunk_twice(s4, s0, c);
        s6.lemma_shrunk_twice(s5, s0, c);
        // Each list is as it was until it is cleared, and stays empty.
        assert(s1.children(c, Kind::Object) == s0.children(c, Kind::Object));
        assert(s2.children(c, Kind::Classifier) == s0.children(c, Kind::Classifier)) by {
            assert(s1.children(c, Kind::Classifier) == s0.children(c, Kind::Classifier));
        }
        assert(s3.children(c, Kind::Display) == s0.children(c, Kind::Display)) by {
            assert(s1.children(c, Kind::Display) == s0.children(c, Kind::Display));
            assert(s2.children(c, Kind::Display) == s1.children(c, Kind::Display));
        }
        assert(s4.children(c, Kind::User) == s0.children(c, Kind::User)) by {
            assert(s1.children(c, Kind::User) == s0.children(c, Kind::User));
            assert(s2.children(c, Kind::User) == s1.children(c, Kind::User));
            assert(s3.children(c, Kind::User) == s2.children(c, Kind::User));
        }
        assert(s5.children(c, Kind::Label) == s0.children(c, Kind::Label)) by {
            assert(s1.children(c, Kind::Label) == s0.children(c, Kind::Label));
            assert(s2.children(c, Kind::Label) == s1.children(c, Kind::Label));
            assert(s3.children(c, Kind::Label) == s2.children(c, Kind::Label));
            assert(s4.children(c, Kind::Label) == s3.children(c, Kind::Label));
        }
        assert(s6.children(c, Kind::Frame) == s1.children(c, Kind::Frame)) by {
            assert(s2.children(c, Kind::Frame) == s1.children(c, Kind::Frame));
            assert(s3.children(c, Kind::Frame) == s2.children(c, Kind::Frame));
            assert(s4.children(c, Kind::Frame) == s3.children(c, Kind::Frame));
            assert(s5.children(c, Kind::Frame) == s4.children(c, Kind::Frame));
            assert(s6.children(c, Kind::Frame) == s5.children(c, Kind::Frame));
        }
        assert(s6.children(c, Kind::Object) == s2.children(c, Kind::Object)) by {
            assert(s3.children(c, Kind::Object) == s2.children(c, Kind::Object));
            assert(s4.children(c, Kind::Object) == s3.children(c, Kind::Object));
            assert(s5.children(c, Kind::Object) == s4.children(c, Kind::Object));
            assert(s6.children(c, Kind::Object) == s5.children(c, Kind::Object));
        }
        assert(s6.children(c, Kind::Classifier) == s3.children(c, Kind::Classifier)) by {
            assert(s4.children(c, Kind::Classifier) == s3.children(c, Kind::Classifier));
            assert(s5.children(c, Kind::Classifier) == s4.children(c, Kind::Classifier));
            assert(s6.children(c, Kind::Classifier) == s5.children(c, Kind::Classifier));
        }
        assert(s6.children(c, Kind::Display) == s4.children(c, Kind::Display)) by {
            assert(s5.children(c, Kind::Display) == s4.children(c, Kind::Display));
            assert(s6.children(c, Kind::Display) == s5.children(c, Kind::Display));
        }
        assert(s6.children(c, Kind::User) == s5.children(c, Kind::User));
        assert(s6.node(c).childless()) by {
            assert forall|k: Kind| #[trigger] s6.node(c).children(k) == Seq::<usize>::empty() by {
                assert(s6.children(c, k) == s6.node(c).children(k));
                if k == Kind::Batch {
                    assert(s6.node(c).children(k) =~= Seq::<usize>::empty());
                }
            }
        }
        assert forall|k: Kind| k != Kind::Batch implies (#[trigger] s6.pool(k)).free_count()
            == s0.pool(k).free_count() + s0.count_under(c, k) by {
            s0.lemma_shrunk_keeps_count_below(s1, c, Kind::Object, k);
            s0.lemma_shrunk_keeps_count_below(s2, c, Kind::Classifier, k);
            s0.lemma_shrunk_keeps_count_below(s3, c, Kind::Display, k);
            s0.lemma_shrunk_keeps_count_below(s4, c, Kind::User, k);
            s0.lemma_shrunk_keeps_count_below(s5, c, Kind::Label, k);
            assert(s1.pool(k).free_count() == s0.pool(k).free_count() + s0.count_below(
                c,
                Kind::Frame,
                k,
            ));
            assert(s2.pool(k).free_count() == s1.pool(k).free_count() + s1.count_below(
                c,
                Kind::Object,
                k,
            ));
            assert(s3.pool(k).free_count() == s2.pool(k).free_count() + s2.count_below(
                c,
                Kind::Classifier,
                k,
            ));
            assert(s4.pool(k).free_count() == s3.pool(k).free_count() + s3.count_below(
                c,
                Kind::Display,
                k,
            ));
            assert(s5.pool(k).free_count() == s4.pool(k).free_count() + s4.count_below(
                c,
                Kind::User,
                k,
            ));
            assert(s6.pool(k).free_count() == s5.pool(k).free_count() + s5.count_below(
                c,
                Kind::Label,
                k,
            ));
        }
        if s0.node(c).childless() {
            assert(s0.node(c).children(Kind::Frame) == Seq::<usize>::empty());
            assert(s0.node(c).children(Kind::Object) == Seq::<usize>::empty());
            assert(s0.node(c).children(Kind::Classifier) == Seq::<usize>::empty());
            assert(s0.node(c).children(Kind::Display) == Seq::<usize>::empty());
            assert(s0.node(c).children(Kind::User) == Seq::<usize>::empty());
            assert(s0.node(c).children(Kind::Label) == Seq::<usize>::empty());
        }
    }

    /// Releases everything below `c` and leaves `c` in use with nothing in
    /// its lists.
    fn empty(&mut self, c: NodeRef)
        requires
            old(self).wf(),
            old(self).live(c),
        ensures
            final(self).wf(),
            final(self).emptied(old(self), c),
        decreases c.kind.height(), 1nat,
    {
        self.clear_meta_list(c, Kind::Frame);
        let ghost s1 = *self;
        self.clear_meta_list(c, Kind::Object);
        let ghost s2 = *self;
        self.clear_meta_list(c, Kind::Classifier);
        let ghost s3 = *self;
        self.clear_meta_list(c, Kind::Display);
        let ghost s4 = *self;
        self.clear_meta_list(c, Kind::User);
        let ghost s5 = *self;
        self.clear_meta_list(c, Kind::Label);
        proof {
            Self::lemma_emptied(c, old(self), &s1, &s2, &s3, &s4, &s5, self);
        }
    }

    /// Giving back the slot of a record that holds nothing in its lists
    /// and has no owner, after everything below it has been released,
    /// completes the release of the record.
    proof fn lemma_released(&self, emptied: &BatchMeta, old: &BatchMeta, c: NodeRef)
        requires
            old.wf(),
            old.can_release(c),
            emptied.wf(),
            emptied.emptied(old, c),
            self.lock_count() == emptied.lock_count(),
            forall|k: Kind| #[trigger] self.nodes(k).len() == emptied.nodes(k).len(),
            self.only_released(emptied, c),
            self.pool(c.kind).wf(),
            self.node(c).is_fresh(c.kind, emptied.node(c).generation),
            forall|q: NodeRef|
                q != c && emptied.in_range(q) ==> #[trigger] self.node(q) == emptied.node(q),
        ensures
            self.wf(),
            self.released(old, c),
    {
        let s6 = emptied;
        old.lemma_live_in_range(c);
        assert(s6.pool(c.kind).wf());
        assert forall|k: Kind| k != Kind::Batch implies {
            &&& (#[trigger] self.pool(k)).wf()
            &&& self.pool(k).capacity() == self.nodes(k).len()
            &&& self.pool(k).kind() == k.meta_type()
        } by {
            assert(s6.pool(k).wf());
            assert(self.nodes(k).len() == s6.nodes(k).len());
            if k != c.kind {
                assert(self.pool(k) == s6.pool(k));
            }
        }
        assert forall|q: NodeRef| q != c implies #[trigger] self.live(q) == s6.live(q) by {
            if q.kind != Kind::Batch && q.kind != c.kind {
                assert(self.pool(q.kind) == s6.pool(q.kind));
            }
        }
        assert(!self.live(c));
        assert(s6.owner(c) is None);
        assert forall|q: NodeRef| #[trigger] self.live(q) implies self.node_wf(q) by {
            assert(q != c);
            assert(s6.live(q));
            assert(s6.node_wf(q));
            s6.lemma_live_in_range(q);
            assert(self.node(q) == s6.node(q));
            let n = self.node(q);
            assert forall|ck: Kind, i: int| 0 <= i < n.children(ck).len() implies {
                let e = NodeRef { kind: ck, slot: #[trigger] n.children(ck)[i] };
                self.live(e) && self.owner(e) == Some(q)
            } by {
                let e = NodeRef { kind: ck, slot: n.children(ck)[i] };
                assert(s6.live(e) && s6.owner(e) == Some(q));
                s6.lemma_live_in_range(e);
                assert(e != c);
            }
            match n.owner {
                None => {},
                Some(p) => {
                    s6.lemma_live_in_range(p);
                    assert(s6.children(p, q.kind).contains(q.slot));
                    if p == c {
                        assert(s6.node(c).children(q.kind) == Seq::<usize>::empty());
                    }
                },
            }
        }
        assert forall|q: NodeRef| #[trigger] self.live(q) implies old.live(q) by {
            assert(s6.live(q));
        }
        assert forall|q: NodeRef|
            old.in_range(q) && (self.live(q) || !old.live(q)) implies #[trigger] self.node(q)
            == old.node(q) by {
            assert(q != c);
            assert(s6.nodes(q.kind).len() == old.nodes(q.kind).len());
            assert(self.node(q) == s6.node(q));
            if self.live(q) {
                assert(s6.live(q));
            }
            assert(s6.node(q) == old.node(q));
        }
        assert forall|q: NodeRef| #[trigger] old.live(q) && !self.live(q) implies {
            &&& self.node(q).is_fresh(q.kind, old.node(q).generation)
            &&& q == c || {
                &&& q.kind.height() < c.kind.height()
                &&& old.owner(q) is Some
                &&& !self.live(old.owner(q).unwrap())
            }
        } by {
            if q != c {
                old.lemma_live_in_range(q);
                assert(s6.nodes(q.kind).len() == old.nodes(q.kind).len());
                assert(!s6.live(q));
                assert(old.live(q) && !s6.live(q));
                assert(self.node(q) == s6.node(q));
                let o = old.owner(q).unwrap();
                if o != c {
                    assert(!s6.live(o));
                }
            }
        }
        assert forall|k: Kind| k != Kind::Batch implies (#[trigger] self.pool(k)).free_count()
            == old.pool(k).free_count() + old.count(c, k) by {
            assert(s6.pool(k).free_count() == old.pool(k).free_count() + old.count_under(c, k));
            if k != c.kind {
                assert(self.pool(k) == s6.pool(k));
            }
        }
    }

    /// Releases `c` with everything below it.
    pub(crate) fn release_subtree(&mut self, c: NodeRef)
        requires
            old(self).wf(),
            old(self).can_release(c),
        ensures
            final(self).wf(),
            final(self).released(old(self), c),
        decreases c.kind.height(), 2nat,
    {
        proof {
            self.lemma_live_in_range(c);
        }
        self.empty(c);
        let ghost s6 = *self;
        proof {
            s6.lemma_live_in_range(c);
        }
        let generation = self.node_ref(c).generation;
        let pool = self.pool_mut(c.kind);
        pool.release(c.slot);
        let ghost s7 = *self;
        let node = self.node_mut(c);
        *node = Node::new(c.kind, generation);
        proof {
            assert forall|k: Kind| k != c.kind && k != Kind::Batch implies #[trigger] self.pool(k)
                == s6.pool(k) by {
                assert(self.pool(k) == s7.pool(k));
            }
            assert(self.pool(c.kind) == s7.pool(c.kind));
            assert forall|k: Kind| #[trigger] self.nodes(k).len() == s6.nodes(k).len() by {
                assert(s7.nodes(k) == s6.nodes(k));
            }
            assert forall|q: NodeRef| q != c && s6.in_range(q) implies #[trigger] self.node(q)
                == s6.node(q) by {
                assert(s7.nodes(q.kind) == s6.nodes(q.kind));
            }
            self.lemma_released(&s6, old(self), c);
        }
    }

    /// Releases the record `c`, which has no owner, with everything below
    /// it. Returns whether that was done; where it was not, because `c` is
    /// not in use or is still in a list, nothing has changed.
    pub fn release(&mut self, c: NodeRef) -> (r: bool)
        requires
            old(self).wf(),
        ensures
            final(self).wf(),
            r == old(self).can_release(c),
            r ==> final(self).released(old(self), c),
            !r ==> *final(self) == *old(self),
    {
        if c.kind == Kind::Batch || !self.is_live(c) {
            return false;
        }
        proof {
            self.lemma_live_in_range(c);
        }
        if self.node_ref(c).owner.is_some() {
            return false;
        }
        self.release_subtree(c);
        true
    }
}

} // verus!
