//! Giving every record of a batch back at once, as at the end of the life of
//! the batch.

use crate::batch::BatchMeta;
use crate::kind::{Kind, NodeRef};
use vstd::prelude::*;

verus! {

impl BatchMeta {
    /// Whether no record of the batch is in use: the batch itself is the
    /// only node in use and holds nothing in its lists, and every slot of
    /// every pool is free.
    pub open spec fn all_free(&self) -> bool {
        &&& forall|q: NodeRef| #[trigger] self.live(q) <==> q == NodeRef::root()
        &&& self.node(NodeRef::root()).childless()
        &&& forall|k: Kind|
            k != Kind::Batch ==> {
                &&& (#[trigger] self.pool(k)).used_count() == 0
                &&& self.pool(k).free_count() == self.pool(k).capacity()
            }
    }

    /// Releases every record of kind `kind`, given that nothing holds a
    /// record of that kind in a list any more.
    fn release_kind(&mut self, kind: Kind)
        requires
            old(self).wf(),
            kind != Kind::Batch,
            old(self).node(NodeRef::root()).childless(),
            forall|p: NodeRef|
                p.kind != Kind::Batch && p.kind.may_hold(kind) ==> !old(self).live(p),
        ensures
            final(self).wf(),
            final(self).lock_count() == old(self).lock_count(),
            final(self).node(NodeRef::root()).childless(),
            forall|k: Kind|
                k != Kind::Batch ==> #[trigger] final(self).pool(k).capacity() == old(self).pool(
                    k,
                ).capacity(),
            forall|q: NodeRef| #[trigger] final(self).live(q) ==> old(self).live(q),
            forall|q: NodeRef| q.kind == kind ==> !final(self).live(q),
    {
        assert(self.pool(kind).wf());
        let capacity = self.pool_ref(kind).max_elements_in_pool() as usize;
        let mut slot: usize = 0;
        while slot < capacity
            invariant
                kind != Kind::Batch,
                old(self).wf(),
                self.wf(),
                slot <= capacity,
                capacity == self.pool(kind).capacity(),
                self.lock_count() == old(self).lock_count(),
                self.node(NodeRef::root()).childless(),
                forall|k: Kind|
                    k != Kind::Batch ==> #[trigger] self.pool(k).capacity() == old(self).pool(
                        k,
                    ).capacity(),
                forall|q: NodeRef| #[trigger] self.live(q) ==> old(self).live(q),
                forall|p: NodeRef|
                    p.kind != Kind::Batch && p.kind.may_hold(kind) ==> !old(self).live(p),
                forall|q: NodeRef| q.kind == kind && q.slot < slot ==> !self.live(q),
            decreases capacity - slot,
        {
            let c = NodeRef { kind, slot };
            let ghost before = *self;
            proof {
                // A record of this kind that is in use has no owner: the
                // batch holds nothing, and nothing else that could hold it
                // is in use.
                if before.live(c) {
                    assert(before.node_wf(c));
                    if before.owner(c) is Some {
                        let p = before.owner(c).unwrap();
                        if p.kind == Kind::Batch {
                            assert(p == NodeRef::root());
                            assert(before.node(p).children(kind) == Seq::<usize>::empty());
                        } else {
                            assert(old(self).live(p));
                        }
                    }
                }
            }
            let released = self.release(c);
            proof {
                assert(released == before.live(c));
                assert(!self.live(c));
                assert(before.live(NodeRef::root()));
                assert(self.live(NodeRef::root())) by {
                    if released && !self.live(NodeRef::root()) {
                        assert(before.live(NodeRef::root()) && !self.live(NodeRef::root()));
                        assert(before.node_wf(NodeRef::root()));
                    }
                }
                if released {
                    assert(before.in_range(NodeRef::root()));
                    assert(self.node(NodeRef::root()) == before.node(NodeRef::root()));
                }
                assert forall|k: Kind| k != Kind::Batch implies #[trigger] self.pool(k).capacity()
                    == old(self).pool(k).capacity() by {
                    assert(before.pool(k).capacity() == old(self).pool(k).capacity());
                    if released {
                        assert(self.nodes(k).len() == before.nodes(k).len());
                        assert(self.pool(k).wf());
                        assert(before.pool(k).wf());
                    }
                }
                assert forall|q: NodeRef| #[trigger] self.live(q) implies old(self).live(q) by {
                    assert(before.live(q));
                }
                assert forall|q: NodeRef| q.kind == kind && q.slot < slot + 1 implies !self.live(
                    q,
                ) by {
                    if q.slot < slot {
                        assert(!before.live(q));
                    }
                }
            }
            slot += 1;
        }
        proof {
            assert forall|q: NodeRef| q.kind == kind implies !self.live(q) by {
                if self.live(q) {
                    self.lemma_live_in_range(q);
                }
            }
        }
    }

    /// Releases every record of the batch, whether it is in a list or not,
    /// and leaves every slot of every pool free.
    pub fn release_all(&mut self)
        requires
            old(self).wf(),
        ensures
            final(self).wf(),
            final(self).all_free(),
            final(self).lock_count() == old(self).lock_count(),
            forall|k: Kind|
                k != Kind::Batch ==> #[trigger] final(self).pool(k).capacity() == old(self).pool(
                    k,
                ).capacity(),
    {
        let root = NodeRef::batch();
        proof {
            assert(self.live(root));
        }
        self.clear_meta_list(root, Kind::Frame);
        let ghost s1 = *self;
        self.clear_meta_list(root, Kind::User);
        let ghost s2 = *self;
        proof {
            assert(s2.node_wf(root));
            assert(s2.children(root, Kind::Frame) == s1.children(root, Kind::Frame));
            assert(s2.node(root).childless()) by {
                assert forall|k: Kind| #[trigger] s2.node(root).children(k) == Seq::<
                    usize,
                >::empty() by {
                    let list = s2.node(root).children(k);
                    if list.len() > 0 {
                        let e = NodeRef { kind: k, slot: list[0] };
                        assert(s2.live(e) && s2.owner(e) == Some(root));
                        assert(s2.node_wf(e));
                        assert(s2.children(root, k) == list);
                    }
                    assert(list =~= Seq::<usize>::empty());
                }
            }
            assert forall|k: Kind| k != Kind::Batch implies #[trigger] s2.pool(k).capacity()
                == old(self).pool(k).capacity() by {
                assert(s1.nodes(k).len() == old(self).nodes(k).len());
                assert(s2.nodes(k).len() == s1.nodes(k).len());
                assert(s2.pool(k).wf());
                assert(s1.pool(k).wf());
                assert(old(self).pool(k).wf());
            }
        }
        self.release_kind(Kind::Frame);
        self.release_kind(Kind::Object);
        self.release_kind(Kind::Classifier);
        self.release_kind(Kind::Display);
        self.release_kind(Kind::User);
        self.release_kind(Kind::Label);
        proof {
            assert forall|q: NodeRef| #[trigger] self.live(q) <==> q == NodeRef::root() by {
                match q.kind {
                    Kind::Batch => {},
                    Kind::Frame => {},
                    Kind::Object => {},
                    Kind::Classifier => {},
                    Kind::Display => {},
                    Kind::User => {},
                    Kind::Label => {},
                }
            }
            assert forall|k: Kind| k != Kind::Batch implies {
                &&& (#[trigger] self.pool(k)).used_count() == 0
                &&& self.pool(k).free_count() == self.pool(k).capacity()
            } by {
                let pool = self.pool(k);
                assert(pool.wf());
                let used = pool.used_slots();
                if used.len() > 0 {
                    assert(used.contains(used[0]));
                    assert(pool.slot_used(used[0]));
                    assert(self.live(NodeRef { kind: k, slot: used[0] }));
                }
            }
        }
    }

    /// Gives up the batch with its pools and every record in them. Every
    /// payload is dropped with the record that holds it.
    pub fn destroy(self)
        requires
            self.wf(),
    {
        let mut batch = self;
        batch.release_all();
    }
}

} // verus!
