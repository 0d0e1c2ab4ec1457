//! The kinds of node in the hierarchy of a batch, and references to nodes.

use crate::meta_type::{BaseMetaType, MetaType};
use vstd::prelude::*;

verus! {

/// The kind of a node: the batch itself, or one of the six kinds of record
/// that a batch keeps a pool for.
#[derive(Clone, Copy, PartialEq, Eq, Debug, Structural)]
pub enum Kind {
    Batch,
    Frame,
    Object,
    Classifier,
    Display,
    User,
    Label,
}

impl Kind {
    /// The number of levels that can lie below a node of this kind.
    pub open spec fn height(self) -> nat {
        match self {
            Kind::Batch => 4,
            Kind::Frame => 3,
            Kind::Object => 2,
            Kind::Classifier => 1,
            Kind::Display => 0,
            Kind::User => 0,
            Kind::Label => 0,
        }
    }

    /// Whether a node of this kind has a list for children of kind `child`:
    /// a batch for frames and user records, a frame for objects, display and
    /// user records, an object for classifiers and user records, a
    /// classifier for labels.
    pub open spec fn may_hold(self, child: Kind) -> bool {
        match (self, child) {
            (Kind::Batch, Kind::Frame) => true,
            (Kind::Batch, Kind::User) => true,
            (Kind::Frame, Kind::Object) => true,
            (Kind::Frame, Kind::Display) => true,
            (Kind::Frame, Kind::User) => true,
            (Kind::Object, Kind::Classifier) => true,
            (Kind::Object, Kind::User) => true,
            (Kind::Classifier, Kind::Label) => true,
            _ => false,
        }
    }

    /// The tag that records of this kind carry in their header.
    pub open spec fn meta_type(self) -> MetaType {
        MetaType::Base(
            match self {
                Kind::Batch => BaseMetaType::BatchMeta,
                Kind::Frame => BaseMetaType::FrameMeta,
                Kind::Object => BaseMetaType::ObjMeta,
                Kind::Classifier => BaseMetaType::ClassifierMeta,
                Kind::Display => BaseMetaType::DisplayMeta,
                Kind::User => BaseMetaType::UserMeta,
                Kind::Label => BaseMetaType::LabelInfoMeta,
            },
        )
    }

    /// The number of levels that can lie below a node of this kind.
    pub fn level(self) -> (r: u8)
        ensures
            r == self.height(),
    {
        match self {
            Kind::Batch => 4,
            Kind::Frame => 3,
            Kind::Object => 2,
            Kind::Classifier => 1,
            Kind::Display => 0,
            Kind::User => 0,
            Kind::Label => 0,
        }
    }

    /// Whether a node of this kind has a list for children of kind `child`.
    pub fn can_hold(self, child: Kind) -> (r: bool)
        ensures
            r == self.may_hold(child),
            r ==> child.height() < self.height(),
    {
        match (self, child) {
            (Kind::Batch, Kind::Frame) => true,
            (Kind::Batch, Kind::User) => true,
            (Kind::Frame, Kind::Object) => true,
            (Kind::Frame, Kind::Display) => true,
            (Kind::Frame, Kind::User) => true,
            (Kind::Object, Kind::Classifier) => true,
            (Kind::Object, Kind::User) => true,
            (Kind::Classifier, Kind::Label) => true,
            _ => false,
        }
    }

    /// The tag that records of this kind carry in their header.
    pub fn base_meta_type(self) -> (r: MetaType)
        ensures
            r == self.meta_type(),
    {
        MetaType::Base(
            match self {
                Kind::Batch => BaseMetaType::BatchMeta,
                Kind::Frame => BaseMetaType::FrameMeta,
                Kind::Object => BaseMetaType::ObjMeta,
                Kind::Classifier => BaseMetaType::ClassifierMeta,
                Kind::Display => BaseMetaType::DisplayMeta,
                Kind::User => BaseMetaType::UserMeta,
                Kind::Label => BaseMetaType::LabelInfoMeta,
            },
        )
    }
}

/// A child lies strictly lower in the hierarchy than the node that holds it.
pub proof fn lemma_may_hold_lowers(parent: Kind, child: Kind)
    requires
        parent.may_hold(child),
    ensures
        child.height() < parent.height(),
        child != Kind::Batch,
        parent != child,
{
}

/// A reference to a node: its kind and the index of its slot in the pool of
/// that kind. The batch itself is the one node of kind [`Kind::Batch`], in
/// slot 0.
#[derive(Clone, Copy, PartialEq, Eq, Debug, Structural)]
pub struct NodeRef {
    pub kind: Kind,
    pub slot: usize,
}

impl NodeRef {
    /// The reference to the batch itself.
    pub open spec fn root() -> NodeRef {
        NodeRef { kind: Kind::Batch, slot: 0 }
    }

    /// The reference to the frame record in slot `slot`.
    pub open spec fn frame(slot: usize) -> NodeRef {
        NodeRef { kind: Kind::Frame, slot }
    }

    /// The reference to the object record in slot `slot`.
    pub open spec fn object(slot: usize) -> NodeRef {
        NodeRef { kind: Kind::Object, slot }
    }

    /// The reference to the classifier record in slot `slot`.
    pub open spec fn classifier(slot: usize) -> NodeRef {
        NodeRef { kind: Kind::Classifier, slot }
    }

    /// The reference to the display record in slot `slot`.
    pub open spec fn display(slot: usize) -> NodeRef {
        NodeRef { kind: Kind::Display, slot }
    }

    /// The reference to the user record in slot `slot`.
    pub open spec fn user(slot: usize) -> NodeRef {
        NodeRef { kind: Kind::User, slot }
    }

    /// The reference to the label record in slot `slot`.
    pub open spec fn label(slot: usize) -> NodeRef {
        NodeRef { kind: Kind::Label, slot }
    }

    /// The reference to the batch itself.
    pub fn batch() -> (r: NodeRef)
        ensures
            r == NodeRef::root(),
    {
        NodeRef { kind: Kind::Batch, slot: 0 }
    }

    /// The reference to the record of kind `kind` in slot `slot`.
    pub fn new(kind: Kind, slot: usize) -> (r: NodeRef)
        ensures
            r == (NodeRef { kind, slot }),
    {
        NodeRef { kind, slot }
    }
}

} // verus!
