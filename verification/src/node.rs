//! The nodes of the hierarchy: a record together with its place in it.

use crate::kind::{Kind, NodeRef};
use crate::list::SlotList;
use crate::record::Record;
use vstd::prelude::*;

verus! {

/// A record together with its place in the hierarchy: the node that holds
/// it, the nodes that it holds, one list for each kind, and the number of
/// times that its slot has been handed out.
#[derive(Debug)]
pub struct Node {
    pub owner: Option<NodeRef>,
    pub generation: u64,
    pub record: Record,
    pub frames: SlotList,
    pub objects: SlotList,
    pub classifiers: SlotList,
    pub displays: SlotList,
    pub users: SlotList,
    pub labels: SlotList,
}

impl Node {
    /// The slots of the children of kind `child`, in the order in which they
    /// were added.
    pub open spec fn children(&self, child: Kind) -> Seq<usize> {
        match child {
            Kind::Batch => Seq::empty(),
            Kind::Frame => self.frames@,
            Kind::Object => self.objects@,
            Kind::Classifier => self.classifiers@,
            Kind::Display => self.displays@,
            Kind::User => self.users@,
            Kind::Label => self.labels@,
        }
    }

    /// Whether the node holds no child of any kind.
    pub open spec fn childless(&self) -> bool {
        forall|k: Kind| #[trigger] self.children(k) == Seq::<usize>::empty()
    }

    /// Whether the node is the fresh node of kind `kind` in its
    /// `generation`-th use: it has no owner and no child, and its record is
    /// the fresh record of that kind.
    pub open spec fn is_fresh(&self, kind: Kind, generation: u64) -> bool {
        &&& self.owner is None
        &&& self.generation == generation
        &&& self.record@ == crate::record::RecordView::fresh(kind)
        &&& self.childless()
    }

    /// The fresh node of kind `kind`.
    pub fn new(kind: Kind, generation: u64) -> (r: Node)
        ensures
            r.is_fresh(kind, generation),
    {
        Node {
            owner: None,
            generation,
            record: Record::new(kind),
            frames: SlotList::new(),
            objects: SlotList::new(),
            classifiers: SlotList::new(),
            displays: SlotList::new(),
            users: SlotList::new(),
            labels: SlotList::new(),
        }
    }

    /// The list of the children of kind `child`.
    pub fn list(&self, child: Kind) -> (r: &SlotList)
        requires
            child != Kind::Batch,
        ensures
            r@ == self.children(child),
    {
        match child {
            Kind::Batch => &self.frames,
            Kind::Frame => &self.frames,
            Kind::Object => &self.objects,
            Kind::Classifier => &self.classifiers,
            Kind::Display => &self.displays,
            Kind::User => &self.users,
            Kind::Label => &self.labels,
        }
    }

    /// Whether this node is `old` but for its list of children of kind
    /// `child`.
    pub open spec fn same_but_children(&self, old: &Node, child: Kind) -> bool {
        &&& self.owner == old.owner
        &&& self.generation == old.generation
        &&& self.record == old.record
        &&& (child == Kind::Frame || self.frames == old.frames)
        &&& (child == Kind::Object || self.objects == old.objects)
        &&& (child == Kind::Classifier || self.classifiers == old.classifiers)
        &&& (child == Kind::Display || self.displays == old.displays)
        &&& (child == Kind::User || self.users == old.users)
        &&& (child == Kind::Label || self.labels == old.labels)
    }

    /// Whether this node has the lists and the generation of `old`: only
    /// its record and its owner may differ.
    pub open spec fn same_lists(&self, old: &Node) -> bool {
        &&& self.generation == old.generation
        &&& self.frames == old.frames
        &&& self.objects == old.objects
        &&& self.classifiers == old.classifiers
        &&& self.displays == old.displays
        &&& self.users == old.users
        &&& self.labels == old.labels
    }

    /// The list of the children of kind `child`, to be changed in place.
    pub fn list_mut(&mut self, child: Kind) -> (r: &mut SlotList)
        requires
            child != Kind::Batch,
        ensures
            r@ == old(self).children(child),
            final(self).children(child) == final(r)@,
            final(self).same_but_children(old(self), child),
    {
        match child {
            Kind::Batch => &mut self.frames,
            Kind::Frame => &mut self.frames,
            Kind::Object => &mut self.objects,
            Kind::Classifier => &mut self.classifiers,
            Kind::Display => &mut self.displays,
            Kind::User => &mut self.users,
            Kind::Label => &mut self.labels,
        }
    }
}

} // verus!
