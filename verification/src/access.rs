//! Reading the records of a batch and writing what a stage knows into them.

use crate::base::BaseMeta;
use crate::batch::BatchMeta;
use crate::classifier::{ClassifierData, ClassifierMeta, LabelData, LabelInfo};
use crate::display::{DisplayData, DisplayMeta};
use crate::frame::{FrameData, FrameMeta};
use crate::kind::{Kind, NodeRef};
use crate::list::MetaList;
use crate::object::{ObjectData, ObjectMeta};
use crate::record::{Record, RecordView};
use crate::user::UserMeta;
use vstd::prelude::*;

verus! {

impl BatchMeta {
    /// Whether this batch is `old` but for the record of `r`, which now
    /// holds `record` with the counts that `old` kept.
    pub open spec fn rewritten(&self, old: &BatchMeta, r: NodeRef, record: RecordView) -> bool {
        &&& self.same_but_node(old, r)
        &&& self.owner(r) == old.owner(r)
        &&& self.node(r).same_lists(&old.node(r))
        &&& self.record(r) == record.with_child_count(
            Kind::Object,
            old.children(r, Kind::Object).len() as u32,
        ).with_child_count(Kind::Label, old.children(r, Kind::Label).len() as u32)
    }

    /// Whether `record` can take the place of the record of `r`: `r` is in
    /// use, and `record` is of its kind and valid.
    pub open spec fn can_rewrite(&self, r: NodeRef, record: RecordView) -> bool {
        &&& self.live(r)
        &&& record.kind() == r.kind
        &&& record.wf()
    }

    /// Puts `record` in the place of the record of `r`. The counts of
    /// children that the record keeps are those of the lists of `r`,
    /// whatever `record` says. Returns whether that was done; where it was
    /// not, nothing has changed.
    pub fn replace_record(&mut self, r: NodeRef, record: Record) -> (done: bool)
        requires
            old(self).wf(),
        ensures
            final(self).wf(),
            done == old(self).can_rewrite(r, record@),
            done ==> final(self).rewritten(old(self), r, record@),
            !done ==> *final(self) == *old(self),
    {
        if !self.is_live(r) || !(record.kind() == r.kind) || !record.is_valid() {
            return false;
        }
        proof {
            self.lemma_live_in_range(r);
            self.lemma_children_bounded(r, Kind::Object);
            self.lemma_children_bounded(r, Kind::Label);
            assert(self.node_wf(r));
        }
        let objects = self.node_ref(r).list(Kind::Object).len();
        let labels = self.node_ref(r).list(Kind::Label).len();
        let mut record = record;
        record.set_child_count(Kind::Object, objects as u32);
        record.set_child_count(Kind::Label, labels as u32);
        let node = self.node_mut(r);
        node.record = record;
        proof {
            self.lemma_rewritten_wf(old(self), r);
        }
        true
    }

    /// Changing the record of a node into a valid one of the same kind that
    /// counts the children rightly keeps a batch valid.
    pub proof fn lemma_rewritten_wf(&self, old: &BatchMeta, r: NodeRef)
        requires
            old.wf(),
            old.live(r),
            self.same_but_node(old, r),
            self.owner(r) == old.owner(r),
            self.node(r).same_lists(&old.node(r)),
            self.record(r).kind() == r.kind,
            self.record(r).wf(),
            forall|ck: Kind| #[trigger]
                self.record(r).child_count(ck) is Some ==> self.record(r).child_count(
                    ck,
                ).unwrap() == old.children(r, ck).len(),
        ensures
            self.wf(),
    {
        assert forall|k: Kind| k != Kind::Batch implies {
            &&& (#[trigger] self.pool(k)).wf()
            &&& self.pool(k).capacity() == self.nodes(k).len()
            &&& self.pool(k).kind() == k.meta_type()
        } by {
            assert(self.pool(k) == old.pool(k));
            assert(old.pool(k).wf());
        }
        assert forall|q: NodeRef| #[trigger] self.live(q) implies self.node_wf(q) by {
            assert(self.pool(q.kind) == old.pool(q.kind));
            assert(old.live(q));
            assert(old.node_wf(q));
            old.lemma_live_in_range(q);
            let n = self.node(q);
            let n0 = old.node(q);
            assert forall|ck: Kind| n.children(ck) == n0.children(ck) by {}
            assert forall|ck: Kind| (#[trigger] n.children(ck)).no_duplicates() by {
                assert(n.children(ck) == n0.children(ck));
            }
            assert forall|ck: Kind, i: int| 0 <= i < n.children(ck).len() implies {
                let c = NodeRef { kind: ck, slot: #[trigger] n.children(ck)[i] };
                self.live(c) && self.owner(c) == Some(q)
            } by {
                let c = NodeRef { kind: ck, slot: n.children(ck)[i] };
                assert(n.children(ck) == n0.children(ck));
                assert(n0.children(ck)[i] == c.slot);
                assert(old.live(c) && old.owner(c) == Some(q));
                assert(self.pool(ck) == old.pool(ck));
                old.lemma_live_in_range(c);
            }
            assert forall|ck: Kind| #[trigger]
                n.record@.child_count(ck) is Some implies n.record@.child_count(ck).unwrap()
                == n.children(ck).len() by {
                assert(n.children(ck) == n0.children(ck));
                if q == r {
                    assert(self.record(r).child_count(ck) is Some);
                } else {
                    assert(n0.record@.child_count(ck) is Some);
                }
            }
            match n.owner {
                None => {},
                Some(p) => {
                    old.lemma_live_in_range(p);
                    assert(self.pool(p.kind) == old.pool(p.kind));
                    assert(old.children(p, q.kind).contains(q.slot));
                    assert(self.node(p).children(q.kind) == old.node(p).children(q.kind));
                },
            }
        }
    }

    /// Sets the value that a stage keeps with the record of `r`. The model
    /// does not interpret the value. Returns whether `r` is in use; where it
    /// is not, nothing has changed.
    pub fn set_user_context(&mut self, r: NodeRef, value: u64) -> (done: bool)
        requires
            old(self).wf(),
        ensures
            final(self).wf(),
            done == old(self).live(r),
            !done ==> *final(self) == *old(self),
            done ==> final(self).same_but_node(old(self), r),
            done ==> final(self).owner(r) == old(self).owner(r),
            done ==> final(self).node(r).same_lists(&old(self).node(r)),
            done ==> final(self).record(r) == old(self).record(r).with_user_context(value),
    {
        if !self.is_live(r) {
            return false;
        }
        proof {
            self.lemma_live_in_range(r);
            assert(self.node_wf(r));
        }
        let node = self.node_mut(r);
        node.record.set_user_context(value);
        proof {
            let rec = old(self).record(r);
            assert forall|ck: Kind| #[trigger]
                self.record(r).child_count(ck) is Some implies self.record(r).child_count(
                ck,
            ).unwrap() == old(self).children(r, ck).len() by {
                assert(self.record(r).child_count(ck) == rec.child_count(ck));
                assert(old(self).node(r).record@.child_count(ck) is Some);
            }
            self.lemma_rewritten_wf(old(self), r);
        }
        true
    }

    /// The record of `r`, or `None` where `r` is not in use.
    pub fn record_of(&self, r: NodeRef) -> (rec: Option<&Record>)
        requires
            self.wf(),
        ensures
            rec is Some <==> self.live(r),
            rec is Some ==> *rec.unwrap() == self.node(r).record,
            rec is Some ==> rec.unwrap()@.kind() == r.kind && rec.unwrap()@.wf(),
    {
        if !self.is_live(r) {
            return None;
        }
        proof {
            self.lemma_live_in_range(r);
            assert(self.node_wf(r));
        }
        Some(&self.node_ref(r).record)
    }

    /// The node that holds `r` in one of its lists, or `None` where `r` is
    /// not in use or in no list.
    pub fn owner_of(&self, r: NodeRef) -> (o: Option<NodeRef>)
        requires
            self.wf(),
        ensures
            o == (if self.live(r) {
                self.owner(r)
            } else {
                None
            }),
    {
        if !self.is_live(r) {
            return None;
        }
        proof {
            self.lemma_live_in_range(r);
        }
        self.node_ref(r).owner
    }

    /// The generation of the slot of `r`: the number of times that it has
    /// been handed out, or `None` where `r` is not in use.
    pub fn generation_of(&self, r: NodeRef) -> (g: Option<u64>)
        requires
            self.wf(),
        ensures
            g == (if self.live(r) {
                Some(self.node(r).generation)
            } else {
                None
            }),
    {
        if !self.is_live(r) {
            return None;
        }
        proof {
            self.lemma_live_in_range(r);
        }
        Some(self.node_ref(r).generation)
    }

    /// The children of kind `child` of `r`, in order, or `None` where `r`
    /// is not in use or has no such child.
    pub fn children_of<T>(&self, r: NodeRef, child: Kind) -> (list: Option<MetaList<'_, T>>)
        requires
            self.wf(),
        ensures
            list is Some <==> self.live(r) && self.children(r, child).len() > 0,
            list is Some ==> list.unwrap()@ == self.children(r, child),
    {
        if child == Kind::Batch || !self.is_live(r) {
            return None;
        }
        proof {
            self.lemma_live_in_range(r);
        }
        let list = self.node_ref(r).list(child);
        if list.is_empty() {
            None
        } else {
            Some(MetaList::new(list))
        }
    }

    /// The frame record in slot `frame`, or `None` where that slot is not
    /// in use.
    pub fn frame_meta(&self, frame: usize) -> (r: Option<&FrameMeta>)
        requires
            self.wf(),
        ensures
            r is Some <==> self.live(NodeRef { kind: Kind::Frame, slot: frame }),
            r is Some ==> self.record(NodeRef { kind: Kind::Frame, slot: frame })
                == RecordView::Frame(*r.unwrap()),
    {
        match self.record_of(NodeRef { kind: Kind::Frame, slot: frame }) {
            Some(Record::Frame(f)) => Some(f),
            _ => None,
        }
    }

    /// The object record in slot `object`, or `None` where that slot is not
    /// in use.
    pub fn obj_meta(&self, object: usize) -> (r: Option<&ObjectMeta>)
        requires
            self.wf(),
        ensures
            r is Some <==> self.live(NodeRef { kind: Kind::Object, slot: object }),
            r is Some ==> self.record(NodeRef { kind: Kind::Object, slot: object })
                == RecordView::Object(r.unwrap()@),
    {
        match self.record_of(NodeRef { kind: Kind::Object, slot: object }) {
            Some(Record::Object(o)) => Some(o),
            _ => None,
        }
    }

    /// The classifier record in slot `classifier`, or `None` where that
    /// slot is not in use.
    pub fn classifier_meta(&self, classifier: usize) -> (r: Option<&ClassifierMeta>)
        requires
            self.wf(),
        ensures
            r is Some <==> self.live(NodeRef { kind: Kind::Classifier, slot: classifier }),
            r is Some ==> self.record(NodeRef { kind: Kind::Classifier, slot: classifier })
                == RecordView::Classifier(r.unwrap()@),
    {
        match self.record_of(NodeRef { kind: Kind::Classifier, slot: classifier }) {
            Some(Record::Classifier(c)) => Some(c),
            _ => None,
        }
    }

    /// The label record in slot `label`, or `None` where that slot is not
    /// in use.
    pub fn label_info_meta(&self, label: usize) -> (r: Option<&LabelInfo>)
        requires
            self.wf(),
        ensures
            r is Some <==> self.live(NodeRef { kind: Kind::Label, slot: label }),
            r is Some ==> self.record(NodeRef { kind: Kind::Label, slot: label })
                == RecordView::Label(r.unwrap()@),
    {
        match self.record_of(NodeRef { kind: Kind::Label, slot: label }) {
            Some(Record::Label(l)) => Some(l),
            _ => None,
        }
    }

    /// The display record in slot `display`, or `None` where that slot is
    /// not in use.
    pub fn display_meta(&self, display: usize) -> (r: Option<&DisplayMeta>)
        requires
            self.wf(),
        ensures
            r is Some <==> self.live(NodeRef { kind: Kind::Display, slot: display }),
            r is Some ==> self.record(NodeRef { kind: Kind::Display, slot: display })
                == RecordView::Display(r.unwrap()@),
            r is Some ==> r.unwrap().wf(),
    {
        match self.record_of(NodeRef { kind: Kind::Display, slot: display }) {
            Some(Record::Display(d)) => Some(d),
            _ => None,
        }
    }

    /// The user record in slot `user`, or `None` where that slot is not in
    /// use.
    pub fn user_meta(&self, user: usize) -> (r: Option<&UserMeta>)
        requires
            self.wf(),
        ensures
            r is Some <==> self.live(NodeRef { kind: Kind::User, slot: user }),
            r is Some ==> self.record(NodeRef { kind: Kind::User, slot: user })
                == RecordView::User(r.unwrap()@),
            r is Some ==> r.unwrap()@.wf(),
    {
        match self.record_of(NodeRef { kind: Kind::User, slot: user }) {
            Some(Record::User(u)) => Some(u),
            _ => None,
        }
    }

    /// The header of the batch itself.
    pub fn base_meta(&self) -> (r: &BaseMeta)
        requires
            self.wf(),
        ensures
            self.record(NodeRef::root()) == RecordView::Batch(*r),
    {
        proof {
            assert(self.live(NodeRef::root()));
            assert(self.node_wf(NodeRef::root()));
        }
        match &self.node_ref(NodeRef::batch()).record {
            Record::Batch(b) => b,
            _ => vstd::pervasive::unreached(),
        }
    }

    /// Writes `data` into the frame record in slot `frame`. Returns whether
    /// that slot is in use; where it is not, nothing has changed.
    pub fn set_frame_data(&mut self, frame: usize, data: FrameData) -> (r: bool)
        requires
            old(self).wf(),
        ensures
            final(self).wf(),
            r == old(self).live(NodeRef { kind: Kind::Frame, slot: frame }),
            !r ==> *final(self) == *old(self),
            r ==> final(self).rewritten(
                old(self),
                NodeRef { kind: Kind::Frame, slot: frame },
                RecordView::Frame(
                    FrameMeta {
                        data,
                        ..old(self).record(NodeRef { kind: Kind::Frame, slot: frame })->Frame_0
                    },
                ),
            ),
    {
        let record = match self.frame_meta(frame) {
            None => {
                return false;
            },
            Some(f) => Record::Frame(
                FrameMeta { base_meta: f.base_meta, data, num_obj_meta: f.num_obj_meta },
            ),
        };
        self.replace_record(NodeRef { kind: Kind::Frame, slot: frame }, record)
    }

    /// Writes `data` into the object record in slot `object`. Returns
    /// whether that slot is in use; where it is not, nothing has changed.
    pub fn set_obj_data(&mut self, object: usize, data: ObjectData) -> (r: bool)
        requires
            old(self).wf(),
        ensures
            final(self).wf(),
            r == old(self).live(NodeRef { kind: Kind::Object, slot: object }),
            !r ==> *final(self) == *old(self),
            r ==> final(self).rewritten(
                old(self),
                NodeRef { kind: Kind::Object, slot: object },
                RecordView::Object(
                    crate::object::ObjectMetaView {
                        data: data@,
                        ..old(self).record(NodeRef { kind: Kind::Object, slot: object })->Object_0
                    },
                ),
            ),
    {
        let record = match self.obj_meta(object) {
            None => {
                return false;
            },
            Some(o) => Record::Object(
                ObjectMeta { base_meta: o.base_meta, data, parent: o.parent },
            ),
        };
        self.replace_record(NodeRef { kind: Kind::Object, slot: object }, record)
    }

    /// Writes `data` into the classifier record in slot `classifier`.
    /// Returns whether that slot is in use; where it is not, nothing has
    /// changed.
    pub fn set_classifier_data(&mut self, classifier: usize, data: ClassifierData) -> (r: bool)
        requires
            old(self).wf(),
        ensures
            final(self).wf(),
            r == old(self).live(NodeRef { kind: Kind::Classifier, slot: classifier }),
            !r ==> *final(self) == *old(self),
            r ==> final(self).rewritten(
                old(self),
                NodeRef { kind: Kind::Classifier, slot: classifier },
                RecordView::Classifier(
                    crate::classifier::ClassifierMetaView {
                        data: data@,
                        ..old(self).record(
                            NodeRef { kind: Kind::Classifier, slot: classifier },
                        )->Classifier_0
                    },
                ),
            ),
    {
        let record = match self.classifier_meta(classifier) {
            None => {
                return false;
            },
            Some(c) => Record::Classifier(
                ClassifierMeta { base_meta: c.base_meta, data, num_labels: c.num_labels },
            ),
        };
        self.replace_record(NodeRef { kind: Kind::Classifier, slot: classifier }, record)
    }

    /// Writes `data` into the label record in slot `label`. Returns whether
    /// that slot is in use; where it is not, nothing has changed.
    pub fn set_label_info_data(&mut self, label: usize, data: LabelData) -> (r: bool)
        requires
            old(self).wf(),
        ensures
            final(self).wf(),
            r == old(self).live(NodeRef { kind: Kind::Label, slot: label }),
            !r ==> *final(self) == *old(self),
            r ==> final(self).rewritten(
                old(self),
                NodeRef { kind: Kind::Label, slot: label },
                RecordView::Label(
                    crate::classifier::LabelInfoView {
                        data: data@,
                        ..old(self).record(NodeRef { kind: Kind::Label, slot: label })->Label_0
                    },
                ),
            ),
    {
        let record = match self.label_info_meta(label) {
            None => {
                return false;
            },
            Some(l) => Record::Label(LabelInfo { base_meta: l.base_meta, data }),
        };
        self.replace_record(NodeRef { kind: Kind::Label, slot: label }, record)
    }

    /// Writes `data` into the display record in slot `display`. Returns
    /// whether that was done: the slot is in use and no kind of primitive
    /// has more entries than a display record has room for. Where it was
    /// not done, nothing has changed.
    pub fn set_display_data(&mut self, display: usize, data: DisplayData) -> (r: bool)
        requires
            old(self).wf(),
        ensures
            final(self).wf(),
            r == (old(self).live(NodeRef { kind: Kind::Display, slot: display })
                && data@.wf()),
            !r ==> *final(self) == *old(self),
            r ==> final(self).rewritten(
                old(self),
                NodeRef { kind: Kind::Display, slot: display },
                RecordView::Display(
                    crate::display::DisplayMetaView {
                        data: data@,
                        ..old(self).record(
                            NodeRef { kind: Kind::Display, slot: display },
                        )->Display_0
                    },
                ),
            ),
    {
        let record = match self.display_meta(display) {
            None => {
                return false;
            },
            Some(d) => Record::Display(DisplayMeta { base_meta: d.base_meta, data }),
        };
        self.replace_record(NodeRef { kind: Kind::Display, slot: display }, record)
    }
}

} // verus!
