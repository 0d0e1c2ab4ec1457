//! Objects of a frame as a tree: an object may name another object of the
//! same frame as its parent, as a face lies within a person.
//!
//! The parent is a reference only: it owns nothing. It names the slot of the
//! parent together with the generation of that slot, so that it stops to
//! resolve once the parent has been released, even if the slot is in use
//! again.

use crate::batch::BatchMeta;
use crate::frame::FrameMeta;
use crate::kind::{Kind, NodeRef};
use crate::object::{ObjectMeta, ObjectMetaView, ParentRef};
use crate::record::{Record, RecordView};
use vstd::prelude::*;

verus! {

impl BatchMeta {
    /// Whether `parent_meta` can be the parent of an object that is added
    /// to the frame in slot `frame`: it is `None`, or the slot of an object
    /// of that frame.
    pub open spec fn parent_ok(&self, frame: usize, parent_meta: Option<usize>) -> bool {
        match parent_meta {
            None => true,
            Some(p) => self.live(NodeRef::object(p)) && self.owner(NodeRef::object(p)) == Some(
                NodeRef::frame(frame),
            ),
        }
    }

    /// The reference to the parent that an object gets when it is added
    /// with `parent_meta`.
    pub open spec fn parent_ref(&self, parent_meta: Option<usize>) -> Option<ParentRef> {
        match parent_meta {
            None => None,
            Some(p) => Some(
                ParentRef { slot: p, generation: self.node(NodeRef::object(p)).generation },
            ),
        }
    }

    /// Whether this batch came from `old` by adding the object in slot
    /// `object` as the last entry to the object list of the frame in slot
    /// `frame`, with `parent` as the reference to its parent.
    pub open spec fn obj_added(
        &self,
        old: &BatchMeta,
        frame: usize,
        object: usize,
        parent: Option<ParentRef>,
    ) -> bool {
        &&& self.same_but_two(old, NodeRef::frame(frame), NodeRef::object(object))
        &&& self.relisted(
            old,
            NodeRef::frame(frame),
            Kind::Object,
            old.children(NodeRef::frame(frame), Kind::Object).push(object),
        )
        &&& self.owner(NodeRef::object(object)) == Some(NodeRef::frame(frame))
        &&& self.node(NodeRef::object(object)).same_lists(&old.node(NodeRef::object(object)))
        &&& self.record(NodeRef::object(object)) == RecordView::Object(
            ObjectMetaView { parent, ..old.record(NodeRef::object(object))->Object_0 },
        )
    }

    /// The slot of the parent of the object in slot `object`, where the
    /// object has one that still stands: the object is in a frame, and the
    /// slot that it names as its parent is in use, in the generation that
    /// the reference names, and in the same frame.
    pub open spec fn parent_of(&self, object: usize) -> Option<usize> {
        let o = NodeRef::object(object);
        if self.live(o) && self.owner(o) is Some && self.record(o) is Object && self.record(
            o,
        )->Object_0.parent is Some {
            let pr = self.record(o)->Object_0.parent.unwrap();
            let p = NodeRef::object(pr.slot);
            if self.live(p) && self.node(p).generation == pr.generation && self.owner(p)
                == self.owner(o) {
                Some(pr.slot)
            } else {
                None
            }
        } else {
            None
        }
    }
}

impl FrameMeta {
    /// Adds the object in slot `obj_meta` as the last entry to the object
    /// list of the frame in slot `frame`, which becomes its owner, and
    /// makes `parent_meta` its parent. Returns whether that was done: frame
    /// and object are in use, the object is in no list yet, and the parent,
    /// if one is given, is an object of that frame. Where it was not done,
    /// nothing has changed.
    pub fn add_obj_meta(
        batch: &mut BatchMeta,
        frame: usize,
        obj_meta: usize,
        parent_meta: Option<usize>,
    ) -> (r: bool)
        requires
            old(batch).wf(),
        ensures
            final(batch).wf(),
            r == (old(batch).can_link(NodeRef::frame(frame), NodeRef::object(obj_meta)) && old(
                batch,
            ).parent_ok(frame, parent_meta)),
            r ==> final(batch).obj_added(
                old(batch),
                frame,
                obj_meta,
                old(batch).parent_ref(parent_meta),
            ),
            !r ==> *final(batch) == *old(batch),
    {
        let f = NodeRef { kind: Kind::Frame, slot: frame };
        let o = NodeRef { kind: Kind::Object, slot: obj_meta };
        let parent: Option<ParentRef> = match parent_meta {
            None => None,
            Some(p) => {
                let pn = NodeRef { kind: Kind::Object, slot: p };
                let owned = match batch.owner_of(pn) {
                    Some(ow) => ow.kind == Kind::Frame && ow.slot == frame,
                    None => false,
                };
                if !owned {
                    return false;
                }
                match batch.generation_of(pn) {
                    Some(generation) => Some(ParentRef { slot: p, generation }),
                    None => {
                        return false;
                    },
                }
            },
        };
        if !batch.link(f, o) {
            return false;
        }
        let ghost mid = *batch;
        proof {
            assert(mid.pool(Kind::Object) == old(batch).pool(Kind::Object));
            assert(mid.live(o));
            mid.lemma_live_in_range(o);
            assert(mid.node_wf(o));
        }
        let node = batch.node_mut(o);
        match &mut node.record {
            Record::Object(m) => {
                m.parent = parent;
            },
            _ => {},
        }
        proof {
            assert(batch.record(o).kind() == Kind::Object);
            batch.lemma_rewritten_wf(&mid, o);
            assert(batch.same_but_two(old(batch), f, o));
            assert forall|k: Kind| k != Kind::Object implies #[trigger] batch.children(f, k)
                == old(batch).children(f, k) by {
                assert(mid.children(f, k) == old(batch).children(f, k));
            }
        }
        true
    }
}

impl ObjectMeta {
    /// The slot of the parent of the object in slot `object`, or `None`
    /// where the object has none that still stands.
    pub fn parent(batch: &BatchMeta, object: usize) -> (r: Option<usize>)
        requires
            batch.wf(),
        ensures
            r == batch.parent_of(object),
    {
        let o = NodeRef { kind: Kind::Object, slot: object };
        let owner = match batch.owner_of(o) {
            None => {
                return None;
            },
            Some(ow) => ow,
        };
        let pr = match batch.obj_meta(object) {
            None => {
                return None;
            },
            Some(m) => match m.parent {
                None => {
                    return None;
                },
                Some(pr) => pr,
            },
        };
        let p = NodeRef { kind: Kind::Object, slot: pr.slot };
        let same_generation = match batch.generation_of(p) {
            Some(g) => g == pr.generation,
            None => false,
        };
        let same_owner = match batch.owner_of(p) {
            Some(ow) => ow.kind == owner.kind && ow.slot == owner.slot,
            None => false,
        };
        if same_generation && same_owner {
            Some(pr.slot)
        } else {
            None
        }
    }
}

} // verus!
