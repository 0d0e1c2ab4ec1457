//! The copy operations under the names of the levels of the hierarchy.

use crate::batch::BatchMeta;
use crate::classifier::{ClassifierMeta, LabelInfo};
use crate::display::DisplayMeta;
use crate::frame::FrameMeta;
use crate::kind::{Kind, NodeRef};
use crate::list::MetaList;
use crate::object::ObjectMeta;
use crate::user::UserMeta;
use vstd::prelude::*;

verus! {

impl<'a> MetaList<'a, FrameMeta> {
    /// The slot of the frame at `index`, or `None` past the end.
    pub fn get_nth_frame_meta(&self, index: u32) -> (r: Option<usize>)
        ensures
            r == (if index < self@.len() {
                Some(self@[index as int])
            } else {
                None
            }),
    {
        self.get(index as usize)
    }

    /// Adds copies of the frame records of this list, which names records
    /// of `src`, to the list of the batch in `dst`, each with everything
    /// below it and in the order of this list. Returns whether that was
    /// done; where it was not, nothing has changed.
    pub fn copy_to_batch_meta(&self, src: &BatchMeta, dst: &mut BatchMeta) -> (r: bool)
        requires
            src.wf(),
            old(dst).wf(),
        ensures
            final(dst).wf(),
            r == old(dst).can_copy_list(src, self@, Kind::Frame, NodeRef::root()),
            r ==> final(dst).appended(
                old(dst),
                src,
                self@,
                Kind::Frame,
                NodeRef::root(),
                self@.len(),
            ),
            !r ==> *final(dst) == *old(dst),
    {
        BatchMeta::copy_list(src, self.slots(), Kind::Frame, dst, NodeRef::batch())
    }
}

impl<'a> MetaList<'a, DisplayMeta> {
    /// Adds copies of the display records of this list, which names records
    /// of `src`, to the list of the frame in slot `dst_frame_meta` in `dst`, each with everything
    /// below it and in the order of this list. Returns whether that was
    /// done; where it was not, nothing has changed.
    pub fn copy_to_frame_meta(
        &self,
        src: &BatchMeta,
        dst: &mut BatchMeta,
        dst_frame_meta: usize,
    ) -> (r: bool)
        requires
            src.wf(),
            old(dst).wf(),
        ensures
            final(dst).wf(),
            r == old(dst).can_copy_list(src, self@, Kind::Display, NodeRef::frame(dst_frame_meta)),
            r ==> final(dst).appended(
                old(dst),
                src,
                self@,
                Kind::Display,
                NodeRef::frame(dst_frame_meta),
                self@.len(),
            ),
            !r ==> *final(dst) == *old(dst),
    {
        BatchMeta::copy_list(
            src,
            self.slots(),
            Kind::Display,
            dst,
            NodeRef::new(Kind::Frame, dst_frame_meta),
        )
    }
}

impl<'a> MetaList<'a, ObjectMeta> {
    /// Adds copies of the object records of this list, which names records
    /// of `src`, to the list of the frame in slot `dst_frame_meta` in `dst`, each with everything
    /// below it and in the order of this list. Returns whether that was
    /// done; where it was not, nothing has changed.
    pub fn copy_to_frame_meta(
        &self,
        src: &BatchMeta,
        dst: &mut BatchMeta,
        dst_frame_meta: usize,
    ) -> (r: bool)
        requires
            src.wf(),
            old(dst).wf(),
        ensures
            final(dst).wf(),
            r == old(dst).can_copy_list(src, self@, Kind::Object, NodeRef::frame(dst_frame_meta)),
            r ==> final(dst).appended(
                old(dst),
                src,
                self@,
                Kind::Object,
                NodeRef::frame(dst_frame_meta),
                self@.len(),
            ),
            !r ==> *final(dst) == *old(dst),
    {
        BatchMeta::copy_list(
            src,
            self.slots(),
            Kind::Object,
            dst,
            NodeRef::new(Kind::Frame, dst_frame_meta),
        )
    }
}

impl<'a> MetaList<'a, ClassifierMeta> {
    /// Adds copies of the classifier records of this list, which names records
    /// of `src`, to the list of the object in slot `dst_object_meta` in `dst`, each with everything
    /// below it and in the order of this list. Returns whether that was
    /// done; where it was not, nothing has changed.
    pub fn copy_to_obj_meta(
        &self,
        src: &BatchMeta,
        dst: &mut BatchMeta,
        dst_object_meta: usize,
    ) -> (r: bool)
        requires
            src.wf(),
            old(dst).wf(),
        ensures
            final(dst).wf(),
            r == old(
                dst,
            ).can_copy_list(src, self@, Kind::Classifier, NodeRef::object(dst_object_meta)),
            r ==> final(dst).appended(
                old(dst),
                src,
                self@,
                Kind::Classifier,
                NodeRef::object(dst_object_meta),
                self@.len(),
            ),
            !r ==> *final(dst) == *old(dst),
    {
        BatchMeta::copy_list(
            src,
            self.slots(),
            Kind::Classifier,
            dst,
            NodeRef::new(Kind::Object, dst_object_meta),
        )
    }
}

impl<'a> MetaList<'a, LabelInfo> {
    /// Adds copies of the label records of this list, which names records
    /// of `src`, to the list of the classifier in slot
    /// `dst_classifier_meta` in `dst`, each with everything below it and in
    /// the order of this list. Returns whether that was
    /// done; where it was not, nothing has changed.
    pub fn copy_to_obj_meta(
        &self,
        src: &BatchMeta,
        dst: &mut BatchMeta,
        dst_classifier_meta: usize,
    ) -> (r: bool)
        requires
            src.wf(),
            old(dst).wf(),
        ensures
            final(dst).wf(),
            r == old(
                dst,
            ).can_copy_list(src, self@, Kind::Label, NodeRef::classifier(dst_classifier_meta)),
            r ==> final(dst).appended(
                old(dst),
                src,
                self@,
                Kind::Label,
                NodeRef::classifier(dst_classifier_meta),
                self@.len(),
            ),
            !r ==> *final(dst) == *old(dst),
    {
        BatchMeta::copy_list(
            src,
            self.slots(),
            Kind::Label,
            dst,
            NodeRef::new(Kind::Classifier, dst_classifier_meta),
        )
    }
}

impl<'a> MetaList<'a, UserMeta> {
    /// Adds copies of the user records of this list, which names records
    /// of `src`, to the list of the batch in `dst`, each with everything
    /// below it and in the order of this list. Returns whether that was
    /// done; where it was not, nothing has changed.
    pub fn copy_to_batch_meta(&self, src: &BatchMeta, dst: &mut BatchMeta) -> (r: bool)
        requires
            src.wf(),
            old(dst).wf(),
        ensures
            final(dst).wf(),
            r == old(dst).can_copy_list(src, self@, Kind::User, NodeRef::root()),
            r ==> final(dst).appended(
                old(dst),
                src,
                self@,
                Kind::User,
                NodeRef::root(),
                self@.len(),
            ),
            !r ==> *final(dst) == *old(dst),
    {
        BatchMeta::copy_list(src, self.slots(), Kind::User, dst, NodeRef::batch())
    }
    /// Adds copies of the user records of this list, which names records
    /// of `src`, to the list of the frame in slot `dst_frame_meta` in `dst`, each with everything
    /// below it and in the order of this list. Returns whether that was
    /// done; where it was not, nothing has changed.
    pub fn copy_to_frame_meta(
        &self,
        src: &BatchMeta,
        dst: &mut BatchMeta,
        dst_frame_meta: usize,
    ) -> (r: bool)
        requires
            src.wf(),
            old(dst).wf(),
        ensures
            final(dst).wf(),
            r == old(dst).can_copy_list(src, self@, Kind::User, NodeRef::frame(dst_frame_meta)),
            r ==> final(dst).appended(
                old(dst),
                src,
                self@,
                Kind::User,
                NodeRef::frame(dst_frame_meta),
                self@.len(),
            ),
            !r ==> *final(dst) == *old(dst),
    {
        BatchMeta::copy_list(
            src,
            self.slots(),
            Kind::User,
            dst,
            NodeRef::new(Kind::Frame, dst_frame_meta),
        )
    }
    /// Adds copies of the user records of this list, which names records
    /// of `src`, to the list of the object in slot `dst_object_meta` in `dst`, each with everything
    /// below it and in the order of this list. Returns whether that was
    /// done; where it was not, nothing has changed.
    pub fn copy_to_obj_meta(
        &self,
        src: &BatchMeta,
        dst: &mut BatchMeta,
        dst_object_meta: usize,
    ) -> (r: bool)
        requires
            src.wf(),
            old(dst).wf(),
        ensures
            final(dst).wf(),
            r == old(dst).can_copy_list(src, self@, Kind::User, NodeRef::object(dst_object_meta)),
            r ==> final(dst).appended(
                old(dst),
                src,
                self@,
                Kind::User,
                NodeRef::object(dst_object_meta),
                self@.len(),
            ),
            !r ==> *final(dst) == *old(dst),
    {
        BatchMeta::copy_list(
            src,
            self.slots(),
            Kind::User,
            dst,
            NodeRef::new(Kind::Object, dst_object_meta),
        )
    }
}

impl FrameMeta {
    /// Puts into the frame record in slot `dst_frame` of `dst`, which
    /// holds nothing in its lists, a copy of the frame record in slot
    /// `frame` of `src` with everything below it. Returns whether that was
    /// done; where it was not, nothing has changed.
    pub fn copy_to(src: &BatchMeta, frame: usize, dst: &mut BatchMeta, dst_frame: usize) -> (r:
        bool)
        requires
            src.wf(),
            old(dst).wf(),
        ensures
            final(dst).wf(),
            r == old(dst).can_copy_into(
                src,
                NodeRef::frame(frame),
                NodeRef::frame(dst_frame),
            ),
            r ==> final(dst).copied_into(
                old(dst),
                src,
                NodeRef::frame(frame),
                NodeRef::frame(dst_frame),
            ),
            !r ==> *final(dst) == *old(dst),
    {
        BatchMeta::copy_record(
            src,
            NodeRef::new(Kind::Frame, frame),
            dst,
            NodeRef::new(Kind::Frame, dst_frame),
        )
    }
}

impl ObjectMeta {
    /// Puts into the object record in slot `dst_object` of `dst`, which
    /// holds nothing in its lists, a copy of the object record in slot
    /// `object` of `src` with everything below it. Returns whether that was
    /// done; where it was not, nothing has changed.
    pub fn copy_to(src: &BatchMeta, object: usize, dst: &mut BatchMeta, dst_object: usize) -> (r:
        bool)
        requires
            src.wf(),
            old(dst).wf(),
        ensures
            final(dst).wf(),
            r == old(dst).can_copy_into(
                src,
                NodeRef::object(object),
                NodeRef::object(dst_object),
            ),
            r ==> final(dst).copied_into(
                old(dst),
                src,
                NodeRef::object(object),
                NodeRef::object(dst_object),
            ),
            !r ==> *final(dst) == *old(dst),
    {
        BatchMeta::copy_record(
            src,
            NodeRef::new(Kind::Object, object),
            dst,
            NodeRef::new(Kind::Object, dst_object),
        )
    }
}

impl ClassifierMeta {
    /// Puts into the classifier record in slot `dst_classifier` of `dst`, which
    /// holds nothing in its lists, a copy of the classifier record in slot
    /// `classifier` of `src` with everything below it. Returns whether that was
    /// done; where it was not, nothing has changed.
    pub fn copy_to(
        src: &BatchMeta,
        classifier: usize,
        dst: &mut BatchMeta,
        dst_classifier: usize,
    ) -> (r:
        bool)
        requires
            src.wf(),
            old(dst).wf(),
        ensures
            final(dst).wf(),
            r == old(dst).can_copy_into(
                src,
                NodeRef::classifier(classifier),
                NodeRef::classifier(dst_classifier),
            ),
            r ==> final(dst).copied_into(
                old(dst),
                src,
                NodeRef::classifier(classifier),
                NodeRef::classifier(dst_classifier),
            ),
            !r ==> *final(dst) == *old(dst),
    {
        BatchMeta::copy_record(
            src,
            NodeRef::new(Kind::Classifier, classifier),
            dst,
            NodeRef::new(Kind::Classifier, dst_classifier),
        )
    }
}

impl LabelInfo {
    /// Puts into the label record in slot `dst_label` of `dst`, which
    /// holds nothing in its lists, a copy of the label record in slot
    /// `label` of `src` with everything below it. Returns whether that was
    /// done; where it was not, nothing has changed.
    pub fn copy_to(src: &BatchMeta, label: usize, dst: &mut BatchMeta, dst_label: usize) -> (r:
        bool)
        requires
            src.wf(),
            old(dst).wf(),
        ensures
            final(dst).wf(),
            r == old(dst).can_copy_into(
                src,
                NodeRef::label(label),
                NodeRef::label(dst_label),
            ),
            r ==> final(dst).copied_into(
                old(dst),
                src,
                NodeRef::label(label),
                NodeRef::label(dst_label),
            ),
            !r ==> *final(dst) == *old(dst),
    {
        BatchMeta::copy_record(
            src,
            NodeRef::new(Kind::Label, label),
            dst,
            NodeRef::new(Kind::Label, dst_label),
        )
    }
}

impl DisplayMeta {
    /// Puts into the display record in slot `dst_display` of `dst`, which
    /// holds nothing in its lists, a copy of the display record in slot
    /// `display` of `src` with everything below it. Returns whether that was
    /// done; where it was not, nothing has changed.
    pub fn copy_to(src: &BatchMeta, display: usize, dst: &mut BatchMeta, dst_display: usize) -> (r:
        bool)
        requires
            src.wf(),
            old(dst).wf(),
        ensures
            final(dst).wf(),
            r == old(dst).can_copy_into(
                src,
                NodeRef::display(display),
                NodeRef::display(dst_display),
            ),
            r ==> final(dst).copied_into(
                old(dst),
                src,
                NodeRef::display(display),
                NodeRef::display(dst_display),
            ),
            !r ==> *final(dst) == *old(dst),
    {
        BatchMeta::copy_record(
            src,
            NodeRef::new(Kind::Display, display),
            dst,
            NodeRef::new(Kind::Display, dst_display),
        )
    }
}

} // verus!
