//! The batch: the root of the hierarchy, which owns the six pools and every
//! record that comes from them.

use crate::kind::{Kind, NodeRef};
use crate::node::Node;
use crate::pool::MetaPool;
use crate::record::RecordView;
use vstd::prelude::*;

verus! {

/// The metadata of one batch of frames.
///
/// A batch owns one pool for each kind of record and one node for each slot
/// of each pool. A record is named by its kind and the index of its slot.
/// Records that are in use hang together as a forest: a record that has been
/// added to a list has the holder of that list as its owner, and a record
/// that has been acquired and not yet added has none.
pub struct BatchMeta {
    pub(crate) root: Vec<Node>,
    pub(crate) frame_meta_pool: MetaPool,
    pub(crate) obj_meta_pool: MetaPool,
    pub(crate) classifier_meta_pool: MetaPool,
    pub(crate) display_meta_pool: MetaPool,
    pub(crate) user_meta_pool: MetaPool,
    pub(crate) label_info_meta_pool: MetaPool,
    pub(crate) frames: Vec<Node>,
    pub(crate) objects: Vec<Node>,
    pub(crate) classifiers: Vec<Node>,
    pub(crate) displays: Vec<Node>,
    pub(crate) users: Vec<Node>,
    pub(crate) labels: Vec<Node>,
    pub(crate) lock_depth: u32,
}

impl BatchMeta {
    /// The nodes of kind `kind`, slot by slot. The batch itself is the one
    /// node of its kind.
    pub open(crate) spec fn nodes(&self, kind: Kind) -> Seq<Node> {
        match kind {
            Kind::Batch => self.root@,
            Kind::Frame => self.frames@,
            Kind::Object => self.objects@,
            Kind::Classifier => self.classifiers@,
            Kind::Display => self.displays@,
            Kind::User => self.users@,
            Kind::Label => self.labels@,
        }
    }

    /// The pool of the records of kind `kind`. There is none for the batch
    /// itself; the frame pool stands in for it.
    pub open(crate) spec fn pool(&self, kind: Kind) -> MetaPool {
        match kind {
            Kind::Batch => self.frame_meta_pool,
            Kind::Frame => self.frame_meta_pool,
            Kind::Object => self.obj_meta_pool,
            Kind::Classifier => self.classifier_meta_pool,
            Kind::Display => self.display_meta_pool,
            Kind::User => self.user_meta_pool,
            Kind::Label => self.label_info_meta_pool,
        }
    }

    /// How often the lock of the batch is held.
    pub open(crate) spec fn lock_count(&self) -> nat {
        self.lock_depth as nat
    }

    /// Whether `r` names a slot that exists.
    pub open spec fn in_range(&self, r: NodeRef) -> bool {
        r.slot < self.nodes(r.kind).len()
    }

    /// The node that `r` names.
    pub open spec fn node(&self, r: NodeRef) -> Node {
        self.nodes(r.kind)[r.slot as int]
    }

    /// Whether `r` names a node that is in use: the batch itself, or a
    /// record whose slot its pool has handed out.
    pub open spec fn live(&self, r: NodeRef) -> bool {
        if r.kind == Kind::Batch {
            r.slot == 0
        } else {
            self.pool(r.kind).slot_used(r.slot)
        }
    }

    /// The node that holds `r` in one of its lists, if there is one.
    pub open spec fn owner(&self, r: NodeRef) -> Option<NodeRef> {
        self.node(r).owner
    }

    /// The slots of the children of kind `child` of `r`, in order.
    pub open spec fn children(&self, r: NodeRef, child: Kind) -> Seq<usize> {
        self.node(r).children(child)
    }

    /// What the record of `r` holds.
    pub open spec fn record(&self, r: NodeRef) -> RecordView {
        self.node(r).record@
    }

    /// Validity of the pools: each keeps its books, has one slot for each
    /// node of its kind, and serves that kind.
    pub open spec fn pools_wf(&self) -> bool {
        &&& self.nodes(Kind::Batch).len() == 1
        &&& forall|k: Kind|
            k != Kind::Batch ==> {
                &&& (#[trigger] self.pool(k)).wf()
                &&& self.pool(k).capacity() == self.nodes(k).len()
                &&& self.pool(k).kind() == k.meta_type()
            }
    }

    /// Validity of the node `r` in its batch.
    ///
    /// Its record is of its kind, valid, and counts its children rightly. No
    /// list names a child twice, every child is in use and has `r` as its
    /// owner. If `r` has an owner, that owner is in use, may hold a node of
    /// the kind of `r`, and names `r` in its list.
    pub open spec fn node_wf(&self, r: NodeRef) -> bool {
        let n = self.node(r);
        &&& n.record@.kind() == r.kind
        &&& n.record@.wf()
        &&& forall|ck: Kind| #[trigger]
            n.record@.child_count(ck) is Some ==> n.record@.child_count(ck).unwrap()
                == n.children(ck).len()
        &&& forall|ck: Kind| (#[trigger] n.children(ck)).no_duplicates()
        &&& forall|ck: Kind, i: int|
            0 <= i < n.children(ck).len() ==> {
                let c = NodeRef { kind: ck, slot: #[trigger] n.children(ck)[i] };
                self.live(c) && self.owner(c) == Some(r)
            }
        &&& match n.owner {
            None => true,
            Some(p) => {
                &&& r.kind != Kind::Batch
                &&& p.kind.may_hold(r.kind)
                &&& self.live(p)
                &&& self.children(p, r.kind).contains(r.slot)
            },
        }
    }

    /// Validity of a batch: its pools are valid and so is every node that is
    /// in use.
    pub open spec fn wf(&self) -> bool {
        &&& self.pools_wf()
        &&& forall|r: NodeRef| #[trigger] self.live(r) ==> self.node_wf(r)
    }

    /// Whether this batch is `old` but for the node `r`: the pools, the lock
    /// and every other node are the same.
    pub open spec fn same_but_node(&self, old: &BatchMeta, r: NodeRef) -> bool {
        &&& self.lock_count() == old.lock_count()
        &&& forall|k: Kind| #[trigger] self.pool(k) == old.pool(k)
        &&& forall|k: Kind| #[trigger] self.nodes(k).len() == old.nodes(k).len()
        &&& forall|q: NodeRef|
            q != r && old.in_range(q) ==> #[trigger] self.node(q) == old.node(q)
    }

    /// A node that is in use names a slot that exists.
    pub proof fn lemma_live_in_range(&self, r: NodeRef)
        requires
            self.pools_wf(),
            self.live(r),
        ensures
            self.in_range(r),
    {
        if r.kind != Kind::Batch {
            assert(self.pool(r.kind).wf());
        }
    }

    /// The pool of the records of kind `kind`.
    pub(crate) fn pool_ref(&self, kind: Kind) -> (r: &MetaPool)
        ensures
            *r == self.pool(kind),
    {
        match kind {
            Kind::Batch => &self.frame_meta_pool,
            Kind::Frame => &self.frame_meta_pool,
            Kind::Object => &self.obj_meta_pool,
            Kind::Classifier => &self.classifier_meta_pool,
            Kind::Display => &self.display_meta_pool,
            Kind::User => &self.user_meta_pool,
            Kind::Label => &self.label_info_meta_pool,
        }
    }

    /// The node that `r` names.
    pub(crate) fn node_ref(&self, r: NodeRef) -> (n: &Node)
        requires
            self.in_range(r),
        ensures
            *n == self.node(r),
    {
        match r.kind {
            Kind::Batch => &self.root[r.slot],
            Kind::Frame => &self.frames[r.slot],
            Kind::Object => &self.objects[r.slot],
            Kind::Classifier => &self.classifiers[r.slot],
            Kind::Display => &self.displays[r.slot],
            Kind::User => &self.users[r.slot],
            Kind::Label => &self.labels[r.slot],
        }
    }

    /// The node that `r` names, to be changed in place. Nothing else of
    /// the batch changes through it.
    pub(crate) fn node_mut(&mut self, r: NodeRef) -> (n: &mut Node)
        requires
            old(self).in_range(r),
        ensures
            *n == old(self).node(r),
            final(self).node(r) == *final(n),
            final(self).same_but_node(old(self), r),
    {
        match r.kind {
            Kind::Batch => &mut self.root[r.slot],
            Kind::Frame => &mut self.frames[r.slot],
            Kind::Object => &mut self.objects[r.slot],
            Kind::Classifier => &mut self.classifiers[r.slot],
            Kind::Display => &mut self.displays[r.slot],
            Kind::User => &mut self.users[r.slot],
            Kind::Label => &mut self.labels[r.slot],
        }
    }

    /// The pool of the records of kind `kind`, to be changed in place.
    /// Nothing else of the batch changes through it.
    pub(crate) fn pool_mut(&mut self, kind: Kind) -> (r: &mut MetaPool)
        requires
            kind != Kind::Batch,
        ensures
            *r == old(self).pool(kind),
            final(self).pool(kind) == *final(r),
            final(self).lock_count() == old(self).lock_count(),
            forall|k: Kind| #[trigger] final(self).nodes(k) == old(self).nodes(k),
            forall|k: Kind|
                k != kind && k != Kind::Batch ==> #[trigger] final(self).pool(k) == old(
                    self,
                ).pool(k),
    {
        match kind {
            Kind::Batch => &mut self.frame_meta_pool,
            Kind::Frame => &mut self.frame_meta_pool,
            Kind::Object => &mut self.obj_meta_pool,
            Kind::Classifier => &mut self.classifier_meta_pool,
            Kind::Display => &mut self.display_meta_pool,
            Kind::User => &mut self.user_meta_pool,
            Kind::Label => &mut self.label_info_meta_pool,
        }
    }

    /// Whether `r` names a node that is in use.
    pub fn is_live(&self, r: NodeRef) -> (b: bool)
        ensures
            b == self.live(r),
    {
        match r.kind {
            Kind::Batch => r.slot == 0,
            _ => self.pool_ref(r.kind).is_used(r.slot),
        }
    }
}

} // verus!
