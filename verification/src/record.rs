//! The record that a node holds, whatever its kind.

use crate::base::BaseMeta;
use crate::classifier::{ClassifierMeta, ClassifierMetaView, LabelInfo, LabelInfoView};
use crate::display::{DisplayMeta, DisplayMetaView};
use crate::frame::FrameMeta;
use crate::kind::Kind;
use crate::object::{ObjectMeta, ObjectMetaView};
use crate::user::{UserMeta, UserMetaView};
use vstd::prelude::*;

verus! {

/// The record of a node.
#[derive(Debug)]
pub enum Record {
    Batch(BaseMeta),
    Frame(FrameMeta),
    Object(ObjectMeta),
    Classifier(ClassifierMeta),
    Display(DisplayMeta),
    User(UserMeta),
    Label(LabelInfo),
}

/// What a [`Record`] holds.
pub enum RecordView {
    Batch(BaseMeta),
    Frame(FrameMeta),
    Object(ObjectMetaView),
    Classifier(ClassifierMetaView),
    Display(DisplayMetaView),
    User(UserMetaView),
    Label(LabelInfoView),
}

impl View for Record {
    type V = RecordView;

    open spec fn view(&self) -> RecordView {
        match self {
            Record::Batch(b) => RecordView::Batch(*b),
            Record::Frame(f) => RecordView::Frame(*f),
            Record::Object(o) => RecordView::Object(o@),
            Record::Classifier(c) => RecordView::Classifier(c@),
            Record::Display(d) => RecordView::Display(d@),
            Record::User(u) => RecordView::User(u@),
            Record::Label(l) => RecordView::Label(l@),
        }
    }
}

impl RecordView {
    /// The kind of node that holds such a record.
    pub open spec fn kind(self) -> Kind {
        match self {
            RecordView::Batch(_) => Kind::Batch,
            RecordView::Frame(_) => Kind::Frame,
            RecordView::Object(_) => Kind::Object,
            RecordView::Classifier(_) => Kind::Classifier,
            RecordView::Display(_) => Kind::Display,
            RecordView::User(_) => Kind::User,
            RecordView::Label(_) => Kind::Label,
        }
    }

    /// Validity of what the record holds by itself.
    pub open spec fn wf(self) -> bool {
        match self {
            RecordView::Display(d) => d.data.wf(),
            RecordView::User(u) => u.wf(),
            _ => true,
        }
    }

    /// The fresh record of kind `kind`.
    pub open spec fn fresh(kind: Kind) -> RecordView {
        match kind {
            Kind::Batch => RecordView::Batch(BaseMeta::of_batch()),
            Kind::Frame => RecordView::Frame(FrameMeta::fresh()),
            Kind::Object => RecordView::Object(ObjectMeta::fresh()),
            Kind::Classifier => RecordView::Classifier(ClassifierMeta::fresh()),
            Kind::Display => RecordView::Display(DisplayMeta::fresh()),
            Kind::User => RecordView::User(UserMeta::fresh()),
            Kind::Label => RecordView::Label(LabelInfo::fresh()),
        }
    }

    /// The count of children of kind `child` that the record keeps, or
    /// `None` where it keeps none for that kind: a frame counts its
    /// objects, a classifier its labels.
    pub open spec fn child_count(self, child: Kind) -> Option<u32> {
        match (self, child) {
            (RecordView::Frame(f), Kind::Object) => Some(f.num_obj_meta),
            (RecordView::Classifier(c), Kind::Label) => Some(c.num_labels),
            _ => None,
        }
    }

    /// The record with its count of children of kind `child` set to
    /// `count`. A record that keeps no count for that kind stays as it is.
    pub open spec fn with_child_count(self, child: Kind, count: u32) -> RecordView {
        match (self, child) {
            (RecordView::Frame(f), Kind::Object) => RecordView::Frame(
                FrameMeta { num_obj_meta: count, ..f },
            ),
            (RecordView::Classifier(c), Kind::Label) => RecordView::Classifier(
                ClassifierMetaView { num_labels: count, ..c },
            ),
            _ => self,
        }
    }

    /// The header of the record.
    pub open spec fn base_meta(self) -> BaseMeta {
        match self {
            RecordView::Batch(b) => b,
            RecordView::Frame(f) => f.base_meta,
            RecordView::Object(o) => o.base_meta,
            RecordView::Classifier(c) => c.base_meta,
            RecordView::Display(d) => d.base_meta,
            RecordView::User(u) => u.base_meta,
            RecordView::Label(l) => l.base_meta,
        }
    }

    /// The record with `value` as the value that a stage keeps with it.
    pub open spec fn with_user_context(self, value: u64) -> RecordView {
        match self {
            RecordView::Batch(b) => RecordView::Batch(BaseMeta { user_context: value, ..b }),
            RecordView::Frame(f) => RecordView::Frame(
                FrameMeta { base_meta: BaseMeta { user_context: value, ..f.base_meta }, ..f },
            ),
            RecordView::Object(o) => RecordView::Object(
                ObjectMetaView { base_meta: BaseMeta { user_context: value, ..o.base_meta }, ..o },
            ),
            RecordView::Classifier(c) => RecordView::Classifier(
                ClassifierMetaView {
                    base_meta: BaseMeta { user_context: value, ..c.base_meta },
                    ..c
                },
            ),
            RecordView::Display(d) => RecordView::Display(
                DisplayMetaView { base_meta: BaseMeta { user_context: value, ..d.base_meta }, ..d },
            ),
            RecordView::User(u) => RecordView::User(
                UserMetaView { base_meta: BaseMeta { user_context: value, ..u.base_meta }, ..u },
            ),
            RecordView::Label(l) => RecordView::Label(
                LabelInfoView { base_meta: BaseMeta { user_context: value, ..l.base_meta }, ..l },
            ),
        }
    }

    /// The record with the counts of children that it keeps set to zero.
    pub open spec fn uncounted(self) -> RecordView {
        self.with_child_count(Kind::Object, 0).with_child_count(Kind::Label, 0)
    }

    /// Whether the record names no parent: it is no object record, or an
    /// object record without a reference to a parent.
    pub open spec fn parentless(self) -> bool {
        match self {
            RecordView::Object(o) => o.parent is None,
            _ => true,
        }
    }

    /// What a copy of the record keeps: everything but what depends on the
    /// place of the record in its batch, that is the counts of children and
    /// an object's reference to its parent.
    pub open spec fn payload(self) -> RecordView {
        match self {
            RecordView::Frame(f) => RecordView::Frame(FrameMeta { num_obj_meta: 0, ..f }),
            RecordView::Object(o) => RecordView::Object(ObjectMetaView { parent: None, ..o }),
            RecordView::Classifier(c) => RecordView::Classifier(
                ClassifierMetaView { num_labels: 0, ..c },
            ),
            _ => self,
        }
    }
}

impl Record {
    /// The kind of node that holds this record.
    pub fn kind(&self) -> (r: Kind)
        ensures
            r == self@.kind(),
    {
        match self {
            Record::Batch(_) => Kind::Batch,
            Record::Frame(_) => Kind::Frame,
            Record::Object(_) => Kind::Object,
            Record::Classifier(_) => Kind::Classifier,
            Record::Display(_) => Kind::Display,
            Record::User(_) => Kind::User,
            Record::Label(_) => Kind::Label,
        }
    }

    /// The fresh record of kind `kind`.
    pub fn new(kind: Kind) -> (r: Record)
        ensures
            r@ == RecordView::fresh(kind),
            r@.kind() == kind,
            r@.wf(),
            r@.payload() == r@,
    {
        match kind {
            Kind::Batch => Record::Batch(BaseMeta::new_batch()),
            Kind::Frame => Record::Frame(FrameMeta::new()),
            Kind::Object => Record::Object(ObjectMeta::new()),
            Kind::Classifier => Record::Classifier(ClassifierMeta::new()),
            Kind::Display => Record::Display(DisplayMeta::new()),
            Kind::User => Record::User(UserMeta::empty()),
            Kind::Label => Record::Label(LabelInfo::new()),
        }
    }

    /// A record of its own that holds what this one holds, without what
    /// depends on the place of this one in its batch.
    pub fn duplicate(&self) -> (r: Record)
        ensures
            r@ == self@.payload(),
            r@.kind() == self@.kind(),
            self@.wf() ==> r@.wf(),
    {
        match self {
            Record::Batch(b) => Record::Batch(*b),
            Record::Frame(f) => Record::Frame(
                FrameMeta { base_meta: f.base_meta, data: f.data, num_obj_meta: 0 },
            ),
            Record::Object(o) => Record::Object(
                ObjectMeta { base_meta: o.base_meta, data: o.data.duplicate(), parent: None },
            ),
            Record::Classifier(c) => Record::Classifier(
                ClassifierMeta {
                    base_meta: c.base_meta,
                    data: c.data.duplicate(),
                    num_labels: 0,
                },
            ),
            Record::Display(d) => Record::Display(
                DisplayMeta { base_meta: d.base_meta, data: d.data.duplicate() },
            ),
            Record::User(u) => Record::User(u.duplicate()),
            Record::Label(l) => Record::Label(
                LabelInfo { base_meta: l.base_meta, data: l.data.duplicate() },
            ),
        }
    }

    /// The header of the record.
    pub fn base_meta(&self) -> (r: &BaseMeta)
        ensures
            *r == self@.base_meta(),
    {
        match self {
            Record::Batch(b) => b,
            Record::Frame(f) => &f.base_meta,
            Record::Object(o) => &o.base_meta,
            Record::Classifier(c) => &c.base_meta,
            Record::Display(d) => &d.base_meta,
            Record::User(u) => &u.base_meta,
            Record::Label(l) => &l.base_meta,
        }
    }

    /// Sets the value that a stage keeps with the record.
    pub fn set_user_context(&mut self, value: u64)
        ensures
            final(self)@ == old(self)@.with_user_context(value),
    {
        match self {
            Record::Batch(b) => {
                b.user_context = value;
            },
            Record::Frame(f) => {
                f.base_meta.user_context = value;
            },
            Record::Object(o) => {
                o.base_meta.user_context = value;
            },
            Record::Classifier(c) => {
                c.base_meta.user_context = value;
            },
            Record::Display(d) => {
                d.base_meta.user_context = value;
            },
            Record::User(u) => {
                u.base_meta.user_context = value;
            },
            Record::Label(l) => {
                l.base_meta.user_context = value;
            },
        }
    }

    /// Whether what the record holds is valid by itself.
    pub fn is_valid(&self) -> (r: bool)
        ensures
            r == self@.wf(),
    {
        match self {
            Record::Display(d) => d.data.is_valid(),
            Record::User(u) => u.user_meta_data.is_none() || (u.base_meta.copy_func
                && u.base_meta.release_func),
            _ => true,
        }
    }

    /// Sets the count of children of kind `child` that the record keeps. A
    /// record that keeps no count for that kind stays as it is.
    pub fn set_child_count(&mut self, child: Kind, count: u32)
        ensures
            final(self)@ == old(self)@.with_child_count(child, count),
    {
        match self {
            Record::Frame(f) => {
                if child == Kind::Object {
                    f.num_obj_meta = count;
                }
            },
            Record::Classifier(c) => {
                if child == Kind::Label {
                    c.num_labels = count;
                }
            },
            _ => {},
        }
    }
}

} // verus!
