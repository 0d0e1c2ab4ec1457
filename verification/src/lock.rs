//! The lock of a batch.
//!
//! The lock can be taken again by whoever holds it, and is free again once
//! it has been given back as often as it was taken. The batch only counts:
//! what keeps two threads apart is that a batch can be changed by one
//! holder at a time.

use crate::batch::BatchMeta;
use crate::kind::{Kind, NodeRef};
use vstd::prelude::*;

verus! {

impl BatchMeta {
    /// Whether this batch is `old` but for the count of its lock.
    pub open spec fn same_but_lock(&self, old: &BatchMeta) -> bool {
        &&& forall|k: Kind| #[trigger] self.pool(k) == old.pool(k)
        &&& forall|k: Kind| #[trigger] self.nodes(k) == old.nodes(k)
    }

    /// A batch that differs from a valid one in the count of its lock
    /// only is valid.
    pub proof fn lemma_same_but_lock_wf(&self, old: &BatchMeta)
        requires
            old.wf(),
            self.same_but_lock(old),
        ensures
            self.wf(),
    {
        assert forall|k: Kind| k != Kind::Batch implies {
            &&& (#[trigger] self.pool(k)).wf()
            &&& self.pool(k).capacity() == self.nodes(k).len()
            &&& self.pool(k).kind() == k.meta_type()
        } by {
            assert(self.pool(k) == old.pool(k));
            assert(self.nodes(k) == old.nodes(k));
            assert(old.pool(k).wf());
        }
        assert(self.nodes(Kind::Batch) == old.nodes(Kind::Batch));
        assert forall|q: NodeRef| #[trigger] self.live(q) implies self.node_wf(q) by {
            assert(self.pool(q.kind) == old.pool(q.kind));
            assert(self.nodes(q.kind) == old.nodes(q.kind));
            assert(old.live(q));
            assert(old.node_wf(q));
            let n = self.node(q);
            assert forall|ck: Kind, i: int| 0 <= i < n.children(ck).len() implies {
                let c = NodeRef { kind: ck, slot: #[trigger] n.children(ck)[i] };
                self.live(c) && self.owner(c) == Some(q)
            } by {
                let c = NodeRef { kind: ck, slot: n.children(ck)[i] };
                assert(old.live(c) && old.owner(c) == Some(q));
                assert(self.pool(ck) == old.pool(ck));
                assert(self.nodes(ck) == old.nodes(ck));
            }
            match n.owner {
                None => {},
                Some(p) => {
                    assert(self.pool(p.kind) == old.pool(p.kind));
                    assert(self.nodes(p.kind) == old.nodes(p.kind));
                },
            }
        }
    }

    /// Takes the lock of the batch once more. The count stays where it is
    /// once it has reached the largest number that it can hold.
    pub fn acquire_meta_lock(&mut self)
        requires
            old(self).wf(),
        ensures
            final(self).wf(),
            final(self).same_but_lock(old(self)),
            final(self).lock_count() == if old(self).lock_count() < u32::MAX {
                old(self).lock_count() + 1
            } else {
                old(self).lock_count()
            },
    {
        if self.lock_depth < u32::MAX {
            self.lock_depth = self.lock_depth + 1;
        }
        proof {
            self.lemma_same_but_lock_wf(old(self));
        }
    }

    /// Gives the lock of the batch back once. Nothing changes where it is
    /// not held.
    pub fn release_meta_lock(&mut self)
        requires
            old(self).wf(),
        ensures
            final(self).wf(),
            final(self).same_but_lock(old(self)),
            final(self).lock_count() == if old(self).lock_count() > 0 {
                old(self).lock_count() - 1
            } else {
                0
            },
    {
        if self.lock_depth > 0 {
            self.lock_depth = self.lock_depth - 1;
        }
        proof {
            self.lemma_same_but_lock_wf(old(self));
        }
    }

    /// Whether the lock of the batch is held.
    pub fn is_meta_locked(&self) -> (r: bool)
        ensures
            r == (self.lock_count() > 0),
    {
        self.lock_depth > 0
    }
}

} // verus!
