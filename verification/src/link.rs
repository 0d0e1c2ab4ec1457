//! Adding records to the lists of the hierarchy and taking them out again.

use crate::batch::BatchMeta;
use crate::kind::{lemma_may_hold_lowers, Kind, NodeRef};
use crate::list::{
    first_index_of, lemma_first_index_of, lemma_no_duplicates_bounded, lemma_remove_first,
};
use crate::node::Node;
use vstd::prelude::*;

verus! {

impl BatchMeta {
    /// No list is longer than the number of records of its kind that are in
    /// use, and so none is longer than a pool can be.
    pub proof fn lemma_children_bounded(&self, r: NodeRef, child: Kind)
        requires
            self.wf(),
            self.live(r),
        ensures
            self.children(r, child).len() <= self.pool(child).used_count(),
            self.children(r, child).len() <= u32::MAX,
    {
        assert(self.node_wf(r));
        let list = self.children(r, child);
        if child == Kind::Batch {
            assert(list.len() == 0);
        } else {
            assert(self.pool(child).wf());
            assert(list.no_duplicates());
            assert forall|i: int| 0 <= i < list.len() implies self.pool(
                child,
            ).used_slots().contains(#[trigger] list[i]) by {
                let c = NodeRef { kind: child, slot: list[i] };
                assert(self.live(c));
            }
            lemma_no_duplicates_bounded(list, self.pool(child).used_slots());
        }
    }

    /// Whether `child` can be added to the list of `parent`: both are in
    /// use, `parent` has a list for the kind of `child`, and `child` has no
    /// owner yet.
    pub open spec fn can_link(&self, parent: NodeRef, child: NodeRef) -> bool {
        &&& parent.kind.may_hold(child.kind)
        &&& self.live(parent)
        &&& self.live(child)
        &&& self.owner(child) is None
    }

    /// Whether this batch is `old` but for the two nodes `a` and `b`.
    pub open spec fn same_but_two(&self, old: &BatchMeta, a: NodeRef, b: NodeRef) -> bool {
        &&& self.lock_count() == old.lock_count()
        &&& forall|k: Kind| #[trigger] self.pool(k) == old.pool(k)
        &&& forall|k: Kind| #[trigger] self.nodes(k).len() == old.nodes(k).len()
        &&& forall|q: NodeRef|
            q != a && q != b && old.in_range(q) ==> #[trigger] self.node(q) == old.node(q)
    }

    /// Whether the node `parent` of this batch is that of `old` with
    /// `list` as its children of kind `child`, and the count that its
    /// record keeps of them brought up to date.
    pub open spec fn relisted(
        &self,
        old: &BatchMeta,
        parent: NodeRef,
        child: Kind,
        list: Seq<usize>,
    ) -> bool {
        &&& self.children(parent, child) == list
        &&& forall|k: Kind|
            k != child ==> #[trigger] self.children(parent, k) == old.children(parent, k)
        &&& self.owner(parent) == old.owner(parent)
        &&& self.node(parent).generation == old.node(parent).generation
        &&& self.record(parent) == old.record(parent).with_child_count(child, list.len() as u32)
    }

    /// Whether this batch came from `old` by adding `child` as the last
    /// entry to the list of `parent`: `child` has `parent` as its owner and
    /// nothing else has changed.
    pub open spec fn linked(&self, old: &BatchMeta, parent: NodeRef, child: NodeRef) -> bool {
        &&& self.same_but_two(old, parent, child)
        &&& self.node(child) == (Node { owner: Some(parent), ..old.node(child) })
        &&& self.relisted(
            old,
            parent,
            child.kind,
            old.children(parent, child.kind).push(child.slot),
        )
    }

    /// Whether this batch came from `old` by taking `child` out of the list
    /// of `parent`: `child` has no owner and nothing else has changed.
    pub open spec fn unlinked(&self, old: &BatchMeta, parent: NodeRef, child: NodeRef) -> bool {
        &&& self.same_but_two(old, parent, child)
        &&& self.node(child) == (Node { owner: None, ..old.node(child) })
        &&& self.relisted(
            old,
            parent,
            child.kind,
            old.children(parent, child.kind).remove(
                first_index_of(old.children(parent, child.kind), child.slot),
            ),
        )
    }

    /// Makes `owner` the owner of `r` and changes nothing else.
    fn set_owner(&mut self, r: NodeRef, owner: Option<NodeRef>)
        requires
            old(self).in_range(r),
        ensures
            final(self).same_but_node(old(self), r),
            final(self).node(r) == (Node { owner, ..old(self).node(r) }),
    {
        let node = self.node_mut(r);
        node.owner = owner;
    }

    /// Adds `child` as the last entry to the list that `parent` has for its
    /// kind, and makes `parent` its owner. Returns whether that was done;
    /// where it was not, nothing has changed.
    pub fn link(&mut self, parent: NodeRef, child: NodeRef) -> (r: bool)
        requires
            old(self).wf(),
        ensures
            final(self).wf(),
            r == old(self).can_link(parent, child),
            r ==> final(self).linked(old(self), parent, child),
            !r ==> *final(self) == *old(self),
    {
        if !parent.kind.can_hold(child.kind) || !self.is_live(parent) || !self.is_live(child) {
            return false;
        }
        proof {
            self.lemma_live_in_range(parent);
            self.lemma_live_in_range(child);
            lemma_may_hold_lowers(parent.kind, child.kind);
            assert(self.node_wf(parent));
            assert(self.node_wf(child));
        }
        if self.node_ref(child).owner.is_some() {
            return false;
        }
        let ghost list0 = self.children(parent, child.kind);
        let ghost list1 = list0.push(child.slot);
        proof {
            // The new entry is not in the list yet: every entry has the
            // parent as its owner.
            if list0.contains(child.slot) {
                let i = choose|i: int| 0 <= i < list0.len() && list0[i] == child.slot;
                assert(self.node(parent).children(child.kind)[i] == child.slot);
                assert(self.owner(child) == Some(parent));
            }
            assert(list1.no_duplicates());
            assert(self.pool(child.kind).wf());
            assert forall|i: int| 0 <= i < list1.len() implies self.pool(
                child.kind,
            ).used_slots().contains(#[trigger] list1[i]) by {
                if i < list0.len() {
                    let c = NodeRef {
                        kind: child.kind,
                        slot: self.node(parent).children(child.kind)[i],
                    };
                    assert(self.live(c));
                }
            }
            lemma_no_duplicates_bounded(list1, self.pool(child.kind).used_slots());
        }
        self.set_owner(child, Some(parent));
        let ghost mid = *self;
        let node = self.node_mut(parent);
        let list = node.list_mut(child.kind);
        list.append(child.slot);
        let count = list.len();
        node.record.set_child_count(child.kind, count as u32);
        proof {
            assert(self.linked(old(self), parent, child));
            self.lemma_linked_wf(old(self), parent, child);
        }
        true
    }

    /// Adding a node that had no owner to a list keeps a batch valid.
    proof fn lemma_linked_wf(&self, old: &BatchMeta, parent: NodeRef, child: NodeRef)
        requires
            old.wf(),
            old.can_link(parent, child),
            self.linked(old, parent, child),
            old.children(parent, child.kind).len() < u32::MAX,
        ensures
            self.wf(),
    {
        lemma_may_hold_lowers(parent.kind, child.kind);
        old.lemma_live_in_range(parent);
        old.lemma_live_in_range(child);
        assert(old.node_wf(parent));
        assert(old.node_wf(child));
        let list0 = old.children(parent, child.kind);
        let list1 = list0.push(child.slot);
        if list0.contains(child.slot) {
            let i = choose|i: int| 0 <= i < list0.len() && list0[i] == child.slot;
            assert(old.node(parent).children(child.kind)[i] == child.slot);
        }
        assert forall|k: Kind| k != Kind::Batch implies {
            &&& (#[trigger] self.pool(k)).wf()
            &&& self.pool(k).capacity() == self.nodes(k).len()
            &&& self.pool(k).kind() == k.meta_type()
        } by {
            assert(self.pool(k) == old.pool(k));
            assert(old.pool(k).wf());
        }
        assert forall|q: NodeRef| #[trigger] self.live(q) implies self.node_wf(q) by {
            assert(self.pool(q.kind) == old.pool(q.kind));
            assert(old.live(q));
            assert(old.node_wf(q));
            old.lemma_live_in_range(q);
            let n = self.node(q);
            let n0 = old.node(q);
            if q == parent {
                assert(list1.no_duplicates());
                assert(self.children(parent, child.kind) == list1);
                assert forall|ck: Kind| (#[trigger] n.children(ck)).no_duplicates() by {
                    if ck != child.kind {
                        assert(self.children(parent, ck) == old.children(parent, ck));
                    }
                }
                assert forall|ck: Kind, i: int| 0 <= i < n.children(ck).len() implies {
                    let c = NodeRef { kind: ck, slot: #[trigger] n.children(ck)[i] };
                    self.live(c) && self.owner(c) == Some(q)
                } by {
                    let c = NodeRef { kind: ck, slot: n.children(ck)[i] };
                    if ck == child.kind && i == list0.len() {
                        assert(c == child);
                    } else {
                        if ck != child.kind {
                            assert(self.children(parent, ck) == old.children(parent, ck));
                        }
                        assert(n0.children(ck)[i] == c.slot);
                        assert(old.live(c) && old.owner(c) == Some(q));
                        assert(self.pool(ck) == old.pool(ck));
                        old.lemma_live_in_range(c);
                        assert(c != child);
                        assert(c != parent);
                    }
                }
                assert forall|ck: Kind| #[trigger]
                    n.record@.child_count(ck) is Some implies n.record@.child_count(
                    ck,
                ).unwrap() == n.children(ck).len() by {
                    if ck != child.kind {
                        assert(self.children(parent, ck) == old.children(parent, ck));
                        assert(n0.record@.child_count(ck) is Some);
                    }
                }
                match n.owner {
                    None => {},
                    Some(p) => {
                        old.lemma_live_in_range(p);
                        assert(self.pool(p.kind) == old.pool(p.kind));
                        assert(p != parent);
                        assert(p != child);
                    },
                }
            } else if q == child {
                assert forall|ck: Kind| (#[trigger] n.children(ck)).no_duplicates() by {
                    assert(n.children(ck) == n0.children(ck));
                }
                assert forall|ck: Kind, i: int| 0 <= i < n.children(ck).len() implies {
                    let c = NodeRef { kind: ck, slot: #[trigger] n.children(ck)[i] };
                    self.live(c) && self.owner(c) == Some(q)
                } by {
                    let c = NodeRef { kind: ck, slot: n.children(ck)[i] };
                    assert(n0.children(ck)[i] == c.slot);
                    assert(old.live(c) && old.owner(c) == Some(q));
                    assert(self.pool(ck) == old.pool(ck));
                    old.lemma_live_in_range(c);
                    assert(c != child);
                    assert(c != parent);
                }
                assert(list1[list0.len() as int] == child.slot);
                assert(self.children(parent, child.kind).contains(child.slot));
            } else {
                assert(n == n0);
                assert forall|ck: Kind, i: int| 0 <= i < n.children(ck).len() implies {
                    let c = NodeRef { kind: ck, slot: #[trigger] n.children(ck)[i] };
                    self.live(c) && self.owner(c) == Some(q)
                } by {
                    let c = NodeRef { kind: ck, slot: n.children(ck)[i] };
                    assert(old.live(c) && old.owner(c) == Some(q));
                    assert(self.pool(ck) == old.pool(ck));
                    old.lemma_live_in_range(c);
                    assert(c != child);
                    if c == parent {
                    }
                }
                match n.owner {
                    None => {},
                    Some(p) => {
                        old.lemma_live_in_range(p);
                        assert(self.pool(p.kind) == old.pool(p.kind));
                        assert(old.children(p, q.kind).contains(q.slot));
                        if p == parent {
                            if q.kind == child.kind {
                                let i = choose|i: int|
                                    0 <= i < list0.len() && list0[i] == q.slot;
                                assert(list1[i] == q.slot);
                            } else {
                                assert(self.children(p, q.kind) == old.children(p, q.kind));
                            }
                        } else if p == child {
                        }
                    },
                }
            }
        }
    }

    /// Whether `child` can be taken out of the list of `parent`: `parent` is
    /// in use and its list names `child`.
    pub open spec fn can_unlink(&self, parent: NodeRef, child: NodeRef) -> bool {
        &&& self.live(parent)
        &&& self.children(parent, child.kind).contains(child.slot)
    }

    /// Takes `child` out of the list that `parent` has for its kind, keeps
    /// the order of the other entries, and leaves `child` in use without an
    /// owner: nothing is released. Returns whether that was done; where it
    /// was not, nothing has changed.
    pub fn unlink(&mut self, parent: NodeRef, child: NodeRef) -> (r: bool)
        requires
            old(self).wf(),
        ensures
            final(self).wf(),
            r == old(self).can_unlink(parent, child),
            r ==> final(self).unlinked(old(self), parent, child),
            !r ==> *final(self) == *old(self),
    {
        if child.kind == Kind::Batch || !self.is_live(parent) {
            return false;
        }
        proof {
            self.lemma_live_in_range(parent);
            assert(self.node_wf(parent));
        }
        if !self.node_ref(parent).list(child.kind).contains(child.slot) {
            return false;
        }
        let ghost list0 = self.children(parent, child.kind);
        proof {
            lemma_first_index_of(list0, child.slot);
            lemma_remove_first(list0, child.slot);
            let i = first_index_of(list0, child.slot);
            assert(self.node(parent).children(child.kind)[i] == child.slot);
            assert(self.live(child) && self.owner(child) == Some(parent));
            self.lemma_live_in_range(child);
            assert(self.node_wf(child));
            lemma_may_hold_lowers(parent.kind, child.kind);
            self.lemma_children_bounded(parent, child.kind);
        }
        let node = self.node_mut(parent);
        let list = node.list_mut(child.kind);
        list.remove(child.slot);
        let count = list.len();
        node.record.set_child_count(child.kind, count as u32);
        self.set_owner(child, None);
        proof {
            assert(self.unlinked(old(self), parent, child));
            self.lemma_unlinked_wf(old(self), parent, child);
        }
        true
    }

    /// Taking a node out of the list of its owner keeps a batch valid.
    proof fn lemma_unlinked_wf(&self, old: &BatchMeta, parent: NodeRef, child: NodeRef)
        requires
            old.wf(),
            old.can_unlink(parent, child),
            self.unlinked(old, parent, child),
        ensures
            self.wf(),
    {
        old.lemma_live_in_range(parent);
        assert(old.node_wf(parent));
        let list0 = old.children(parent, child.kind);
        lemma_first_index_of(list0, child.slot);
        lemma_remove_first(list0, child.slot);
        let k = first_index_of(list0, child.slot);
        let list1 = list0.remove(k);
        assert(old.node(parent).children(child.kind)[k] == child.slot);
        assert(old.live(child) && old.owner(child) == Some(parent));
        old.lemma_live_in_range(child);
        assert(old.node_wf(child));
        lemma_may_hold_lowers(parent.kind, child.kind);
        old.lemma_children_bounded(parent, child.kind);
        assert forall|k: Kind| k != Kind::Batch implies {
            &&& (#[trigger] self.pool(k)).wf()
            &&& self.pool(k).capacity() == self.nodes(k).len()
            &&& self.pool(k).kind() == k.meta_type()
        } by {
            assert(self.pool(k) == old.pool(k));
            assert(old.pool(k).wf());
        }
        assert forall|q: NodeRef| #[trigger] self.live(q) implies self.node_wf(q) by {
            assert(self.pool(q.kind) == old.pool(q.kind));
            assert(old.live(q));
            assert(old.node_wf(q));
            old.lemma_live_in_range(q);
            let n = self.node(q);
            let n0 = old.node(q);
            if q == parent {
                assert(self.children(parent, child.kind) == list1);
                assert forall|ck: Kind| (#[trigger] n.children(ck)).no_duplicates() by {
                    if ck != child.kind {
                        assert(self.children(parent, ck) == old.children(parent, ck));
                    }
                }
                assert forall|ck: Kind, i: int| 0 <= i < n.children(ck).len() implies {
                    let c = NodeRef { kind: ck, slot: #[trigger] n.children(ck)[i] };
                    self.live(c) && self.owner(c) == Some(q)
                } by {
                    let c = NodeRef { kind: ck, slot: n.children(ck)[i] };
                    if ck == child.kind {
                        assert(list1.contains(c.slot));
                        assert(list0.contains(c.slot));
                        let j = choose|j: int| 0 <= j < list0.len() && list0[j] == c.slot;
                        assert(n0.children(ck)[j] == c.slot);
                    } else {
                        assert(self.children(parent, ck) == old.children(parent, ck));
                        assert(n0.children(ck)[i] == c.slot);
                    }
                    assert(old.live(c) && old.owner(c) == Some(q));
                    assert(self.pool(ck) == old.pool(ck));
                    old.lemma_live_in_range(c);
                    assert(c != child);
                    assert(c != parent);
                }
                assert forall|ck: Kind| #[trigger]
                    n.record@.child_count(ck) is Some implies n.record@.child_count(
                    ck,
                ).unwrap() == n.children(ck).len() by {
                    if ck != child.kind {
                        assert(self.children(parent, ck) == old.children(parent, ck));
                        assert(n0.record@.child_count(ck) is Some);
                    }
                }
                match n.owner {
                    None => {},
                    Some(p) => {
                        old.lemma_live_in_range(p);
                        assert(self.pool(p.kind) == old.pool(p.kind));
                        assert(p != parent);
                        assert(p != child);
                    },
                }
            } else if q == child {
                assert forall|ck: Kind| (#[trigger] n.children(ck)).no_duplicates() by {
                    assert(n.children(ck) == n0.children(ck));
                }
                assert forall|ck: Kind, i: int| 0 <= i < n.children(ck).len() implies {
                    let c = NodeRef { kind: ck, slot: #[trigger] n.children(ck)[i] };
                    self.live(c) && self.owner(c) == Some(q)
                } by {
                    let c = NodeRef { kind: ck, slot: n.children(ck)[i] };
                    assert(n0.children(ck)[i] == c.slot);
                    assert(old.live(c) && old.owner(c) == Some(q));
                    assert(self.pool(ck) == old.pool(ck));
                    old.lemma_live_in_range(c);
                    assert(c != child);
                    assert(c != parent);
                }
            } else {
                assert(n == n0);
                assert forall|ck: Kind, i: int| 0 <= i < n.children(ck).len() implies {
                    let c = NodeRef { kind: ck, slot: #[trigger] n.children(ck)[i] };
                    self.live(c) && self.owner(c) == Some(q)
                } by {
                    let c = NodeRef { kind: ck, slot: n.children(ck)[i] };
                    assert(old.live(c) && old.owner(c) == Some(q));
                    assert(self.pool(ck) == old.pool(ck));
                    old.lemma_live_in_range(c);
                    assert(c != child);
                }
                match n.owner {
                    None => {},
                    Some(p) => {
                        old.lemma_live_in_range(p);
                        assert(self.pool(p.kind) == old.pool(p.kind));
                        assert(old.children(p, q.kind).contains(q.slot));
                        if p == parent {
                            if q.kind == child.kind {
                                assert(list1.contains(q.slot));
                            } else {
                                assert(self.children(p, q.kind) == old.children(p, q.kind));
                            }
                        } else if p == child {
                            assert(self.node(child).children(q.kind) == old.node(
                                child,
                            ).children(q.kind));
                        }
                    },
                }
            }
        }
    }
}

} // verus!
