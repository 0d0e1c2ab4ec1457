//! The operations of the hierarchy under the names of its levels: a batch
//! holds frames and user records, a frame holds objects, display and user
//! records, an object holds classifiers and user records, a classifier holds
//! labels.

use crate::batch::BatchMeta;
use crate::classifier::{ClassifierMeta, LabelInfo};
use crate::display::DisplayMeta;
use crate::frame::FrameMeta;
use crate::kind::{Kind, NodeRef};
use crate::list::MetaList;
use crate::object::ObjectMeta;
use crate::pool::MetaPool;
use crate::user::UserMeta;
use vstd::prelude::*;

verus! {

impl BatchMeta {
    /// The largest number of frames that the batch can hold: the number of
    /// slots of its frame pool.
    pub fn max_frames_in_batch(&self) -> (r: u32)
        requires
            self.wf(),
        ensures
            r == self.pool(Kind::Frame).capacity(),
    {
        self.pool_ref(Kind::Frame).max_elements_in_pool()
    }

    /// The number of frames in the frame list of the batch. It never
    /// exceeds the largest number of frames that the batch can hold.
    pub fn num_frames_in_batch(&self) -> (r: u32)
        requires
            self.wf(),
        ensures
            r == self.children(NodeRef::root(), Kind::Frame).len(),
            r <= self.pool(Kind::Frame).capacity(),
    {
        proof {
            assert(self.live(NodeRef::root()));
            self.lemma_children_bounded(NodeRef::root(), Kind::Frame);
            assert(self.pool(Kind::Frame).wf());
        }
        self.node_ref(NodeRef::batch()).list(Kind::Frame).len() as u32
    }

    /// The frames of the batch, in the order in which they were added.
    pub fn frame_meta_list(&self) -> (r: MetaList<'_, FrameMeta>)
        requires
            self.wf(),
        ensures
            r@ == self.children(NodeRef::root(), Kind::Frame),
    {
        MetaList::new(self.node_ref(NodeRef::batch()).list(Kind::Frame))
    }

    /// The user records of the batch itself, in the order in which they
    /// were added.
    pub fn batch_user_meta_list(&self) -> (r: MetaList<'_, UserMeta>)
        requires
            self.wf(),
        ensures
            r@ == self.children(NodeRef::root(), Kind::User),
    {
        MetaList::new(self.node_ref(NodeRef::batch()).list(Kind::User))
    }

    /// The pool of the frame records.
    pub fn frame_meta_pool(&self) -> (r: &MetaPool)
        ensures
            *r == self.pool(Kind::Frame),
    {
        self.pool_ref(Kind::Frame)
    }

    /// The pool of the object records.
    pub fn obj_meta_pool(&self) -> (r: &MetaPool)
        ensures
            *r == self.pool(Kind::Object),
    {
        self.pool_ref(Kind::Object)
    }

    /// The pool of the classifier records.
    pub fn classifier_meta_pool(&self) -> (r: &MetaPool)
        ensures
            *r == self.pool(Kind::Classifier),
    {
        self.pool_ref(Kind::Classifier)
    }

    /// The pool of the display records.
    pub fn display_meta_pool(&self) -> (r: &MetaPool)
        ensures
            *r == self.pool(Kind::Display),
    {
        self.pool_ref(Kind::Display)
    }

    /// The pool of the user records.
    pub fn user_meta_pool(&self) -> (r: &MetaPool)
        ensures
            *r == self.pool(Kind::User),
    {
        self.pool_ref(Kind::User)
    }

    /// The pool of the label records.
    pub fn label_info_meta_pool(&self) -> (r: &MetaPool)
        ensures
            *r == self.pool(Kind::Label),
    {
        self.pool_ref(Kind::Label)
    }

    /// Takes a free frame record into use and returns its slot, or returns
    /// `None` and changes nothing where the pool has none left. The record
    /// is fresh and in no list.
    pub fn acquire_frame_meta_from_pool(&mut self) -> (r: Option<usize>)
        requires
            old(self).wf(),
        ensures
            final(self).wf(),
            r is Some <==> old(self).pool(Kind::Frame).free_count() > 0,
            r is None ==> *final(self) == *old(self),
            r is Some ==> final(self).acquired(
                old(self),
                NodeRef::frame(r.unwrap()),
            ),
    {
        match self.acquire(Kind::Frame) {
            Ok(slot) => Some(slot),
            Err(_) => None,
        }
    }

    /// Takes a free object record into use and returns its slot, or returns
    /// `None` and changes nothing where the pool has none left. The record
    /// is fresh and in no list.
    pub fn acquire_obj_meta_from_pool(&mut self) -> (r: Option<usize>)
        requires
            old(self).wf(),
        ensures
            final(self).wf(),
            r is Some <==> old(self).pool(Kind::Object).free_count() > 0,
            r is None ==> *final(self) == *old(self),
            r is Some ==> final(self).acquired(
                old(self),
                NodeRef::object(r.unwrap()),
            ),
    {
        match self.acquire(Kind::Object) {
            Ok(slot) => Some(slot),
            Err(_) => None,
        }
    }

    /// Takes a free classifier record into use and returns its slot, or returns
    /// `None` and changes nothing where the pool has none left. The record
    /// is fresh and in no list.
    pub fn acquire_classifier_meta_from_pool(&mut self) -> (r: Option<usize>)
        requires
            old(self).wf(),
        ensures
            final(self).wf(),
            r is Some <==> old(self).pool(Kind::Classifier).free_count() > 0,
            r is None ==> *final(self) == *old(self),
            r is Some ==> final(self).acquired(
                old(self),
                NodeRef::classifier(r.unwrap()),
            ),
    {
        match self.acquire(Kind::Classifier) {
            Ok(slot) => Some(slot),
            Err(_) => None,
        }
    }

    /// Takes a free label record into use and returns its slot, or returns
    /// `None` and changes nothing where the pool has none left. The record
    /// is fresh and in no list.
    pub fn acquire_label_info_meta_from_pool(&mut self) -> (r: Option<usize>)
        requires
            old(self).wf(),
        ensures
            final(self).wf(),
            r is Some <==> old(self).pool(Kind::Label).free_count() > 0,
            r is None ==> *final(self) == *old(self),
            r is Some ==> final(self).acquired(
                old(self),
                NodeRef::label(r.unwrap()),
            ),
    {
        match self.acquire(Kind::Label) {
            Ok(slot) => Some(slot),
            Err(_) => None,
        }
    }

    /// Takes a free user record into use and returns its slot, or returns
    /// `None` and changes nothing where the pool has none left. The record
    /// is fresh and in no list.
    pub fn acquire_user_meta_from_pool(&mut self) -> (r: Option<usize>)
        requires
            old(self).wf(),
        ensures
            final(self).wf(),
            r is Some <==> old(self).pool(Kind::User).free_count() > 0,
            r is None ==> *final(self) == *old(self),
            r is Some ==> final(self).acquired(
                old(self),
                NodeRef::user(r.unwrap()),
            ),
    {
        match self.acquire(Kind::User) {
            Ok(slot) => Some(slot),
            Err(_) => None,
        }
    }

    /// Takes a free display record into use and returns its slot, or returns
    /// `None` and changes nothing where the pool has none left. The record
    /// is fresh and in no list.
    pub fn acquire_display_meta_from_pool(&mut self) -> (r: Option<usize>)
        requires
            old(self).wf(),
        ensures
            final(self).wf(),
            r is Some <==> old(self).pool(Kind::Display).free_count() > 0,
            r is None ==> *final(self) == *old(self),
            r is Some ==> final(self).acquired(
                old(self),
                NodeRef::display(r.unwrap()),
            ),
    {
        match self.acquire(Kind::Display) {
            Ok(slot) => Some(slot),
            Err(_) => None,
        }
    }

    /// Adds the frame record in slot `meta` as the last entry to
    /// the list of the batch, which becomes its owner. Returns whether
    /// that was done: both are in use and the record is in no list yet.
    /// Where it was not done, nothing has changed.
    pub fn add_frame_meta(&mut self, meta: usize) -> (r: bool)
        requires
            old(self).wf(),
        ensures
            final(self).wf(),
            r == old(self).can_link(NodeRef::root(), NodeRef::frame(meta)),
            r ==> final(self).linked(
                old(self),
                NodeRef::root(),
                NodeRef::frame(meta),
            ),
            !r ==> *final(self) == *old(self),
    {
        self.link(NodeRef::batch(), NodeRef::new(Kind::Frame, meta))
    }

    /// Takes the frame record in slot `meta` out of the list of
    /// the batch. The record stays in use, without an owner: nothing is
    /// released. Returns whether the list held it; where it did not,
    /// nothing has changed.
    pub fn remove_frame_meta(&mut self, meta: usize) -> (r: bool)
        requires
            old(self).wf(),
        ensures
            final(self).wf(),
            r == old(self).can_unlink(NodeRef::root(), NodeRef::frame(meta)),
            r ==> final(self).unlinked(
                old(self),
                NodeRef::root(),
                NodeRef::frame(meta),
            ),
            !r ==> *final(self) == *old(self),
    {
        self.unlink(NodeRef::batch(), NodeRef::new(Kind::Frame, meta))
    }

    /// Adds the user record in slot `meta` as the last entry to
    /// the list of the batch, which becomes its owner. Returns whether
    /// that was done: both are in use and the record is in no list yet.
    /// Where it was not done, nothing has changed.
    pub fn add_user_meta(&mut self, meta: usize) -> (r: bool)
        requires
            old(self).wf(),
        ensures
            final(self).wf(),
            r == old(self).can_link(NodeRef::root(), NodeRef::user(meta)),
            r ==> final(self).linked(
                old(self),
                NodeRef::root(),
                NodeRef::user(meta),
            ),
            !r ==> *final(self) == *old(self),
    {
        self.link(NodeRef::batch(), NodeRef::new(Kind::User, meta))
    }

    /// Takes the user record in slot `meta` out of the list of
    /// the batch. The record stays in use, without an owner: nothing is
    /// released. Returns whether the list held it; where it did not,
    /// nothing has changed.
    pub fn remove_user_meta(&mut self, meta: usize) -> (r: bool)
        requires
            old(self).wf(),
        ensures
            final(self).wf(),
            r == old(self).can_unlink(NodeRef::root(), NodeRef::user(meta)),
            r ==> final(self).unlinked(
                old(self),
                NodeRef::root(),
                NodeRef::user(meta),
            ),
            !r ==> *final(self) == *old(self),
    {
        self.unlink(NodeRef::batch(), NodeRef::new(Kind::User, meta))
    }

    /// Releases every frame record in the list of the batch,
    /// each with everything below it, and leaves the list empty. Returns
    /// whether the batch is in use; where it is not, nothing has
    /// changed.
    pub fn clear_frame_meta_list(&mut self) -> (r: bool)
        requires
            old(self).wf(),
        ensures
            final(self).wf(),
            r == old(self).live(NodeRef::root()),
            r ==> final(self).cleared(old(self), NodeRef::root(), Kind::Frame),
            !r ==> *final(self) == *old(self),
    {
        self.clear_meta_list(NodeRef::batch(), Kind::Frame)
    }

    /// Releases every user record in the list of the batch,
    /// each with everything below it, and leaves the list empty. Returns
    /// whether the batch is in use; where it is not, nothing has
    /// changed.
    pub fn clear_user_meta_list(&mut self) -> (r: bool)
        requires
            old(self).wf(),
        ensures
            final(self).wf(),
            r == old(self).live(NodeRef::root()),
            r ==> final(self).cleared(old(self), NodeRef::root(), Kind::User),
            !r ==> *final(self) == *old(self),
    {
        self.clear_meta_list(NodeRef::batch(), Kind::User)
    }
}

impl FrameMeta {
    /// The object records of the frame in slot `frame`, in
    /// the order in which they were added, or `None` where that slot is not
    /// in use or the list is empty.
    pub fn obj_meta_list(batch: &BatchMeta, frame: usize) -> (r: Option<MetaList<'_, ObjectMeta>>)
        requires
            batch.wf(),
        ensures
            r is Some <==> batch.live(NodeRef::frame(frame))
                && batch.children(NodeRef::frame(frame), Kind::Object).len()
                > 0,
            r is Some ==> r.unwrap()@ == batch.children(
                NodeRef::frame(frame),
                Kind::Object,
            ),
    {
        batch.children_of(NodeRef::new(Kind::Frame, frame), Kind::Object)
    }

    /// The display records of the frame in slot `frame`, in
    /// the order in which they were added, or `None` where that slot is not
    /// in use or the list is empty.
    pub fn display_meta_list(
        batch: &BatchMeta,
        frame: usize,
    ) -> (r: Option<MetaList<'_, DisplayMeta>>)
        requires
            batch.wf(),
        ensures
            r is Some <==> batch.live(NodeRef::frame(frame))
                && batch.children(NodeRef::frame(frame), Kind::Display).len()
                > 0,
            r is Some ==> r.unwrap()@ == batch.children(
                NodeRef::frame(frame),
                Kind::Display,
            ),
    {
        batch.children_of(NodeRef::new(Kind::Frame, frame), Kind::Display)
    }

    /// The user records of the frame in slot `frame`, in
    /// the order in which they were added, or `None` where that slot is not
    /// in use or the list is empty.
    pub fn frame_user_meta_list(
        batch: &BatchMeta,
        frame: usize,
    ) -> (r: Option<MetaList<'_, UserMeta>>)
        requires
            batch.wf(),
        ensures
            r is Some <==> batch.live(NodeRef::frame(frame))
                && batch.children(NodeRef::frame(frame), Kind::User).len()
                > 0,
            r is Some ==> r.unwrap()@ == batch.children(
                NodeRef::frame(frame),
                Kind::User,
            ),
    {
        batch.children_of(NodeRef::new(Kind::Frame, frame), Kind::User)
    }

    /// Takes the object record in slot `obj_meta` out of the list of
    /// the frame in slot `frame`. The record stays in use, without an owner: nothing is
    /// released. Returns whether the list held it; where it did not,
    /// nothing has changed.
    pub fn remove_obj_meta(batch: &mut BatchMeta, frame: usize, obj_meta: usize) -> (r: bool)
        requires
            old(batch).wf(),
        ensures
            final(batch).wf(),
            r == old(batch).can_unlink(NodeRef::frame(frame), NodeRef::object(obj_meta)),
            r ==> final(batch).unlinked(
                old(batch),
                NodeRef::frame(frame),
                NodeRef::object(obj_meta),
            ),
            !r ==> *final(batch) == *old(batch),
    {
        batch.unlink(NodeRef::new(Kind::Frame, frame), NodeRef::new(Kind::Object, obj_meta))
    }

    /// Adds the display record in slot `meta` as the last entry to
    /// the list of the frame in slot `frame`, which becomes its owner. Returns whether
    /// that was done: both are in use and the record is in no list yet.
    /// Where it was not done, nothing has changed.
    pub fn add_display_meta(batch: &mut BatchMeta, frame: usize, meta: usize) -> (r: bool)
        requires
            old(batch).wf(),
        ensures
            final(batch).wf(),
            r == old(batch).can_link(NodeRef::frame(frame), NodeRef::display(meta)),
            r ==> final(batch).linked(
                old(batch),
                NodeRef::frame(frame),
                NodeRef::display(meta),
            ),
            !r ==> *final(batch) == *old(batch),
    {
        batch.link(NodeRef::new(Kind::Frame, frame), NodeRef::new(Kind::Display, meta))
    }

    /// Takes the display record in slot `meta` out of the list of
    /// the frame in slot `frame`. The record stays in use, without an owner: nothing is
    /// released. Returns whether the list held it; where it did not,
    /// nothing has changed.
    pub fn remove_display_meta(batch: &mut BatchMeta, frame: usize, meta: usize) -> (r: bool)
        requires
            old(batch).wf(),
        ensures
            final(batch).wf(),
            r == old(batch).can_unlink(NodeRef::frame(frame), NodeRef::display(meta)),
            r ==> final(batch).unlinked(
                old(batch),
                NodeRef::frame(frame),
                NodeRef::display(meta),
            ),
            !r ==> *final(batch) == *old(batch),
    {
        batch.unlink(NodeRef::new(Kind::Frame, frame), NodeRef::new(Kind::Display, meta))
    }

    /// Adds the user record in slot `meta` as the last entry to
    /// the list of the frame in slot `frame`, which becomes its owner. Returns whether
    /// that was done: both are in use and the record is in no list yet.
    /// Where it was not done, nothing has changed.
    pub fn add_user_meta(batch: &mut BatchMeta, frame: usize, meta: usize) -> (r: bool)
        requires
            old(batch).wf(),
        ensures
            final(batch).wf(),
            r == old(batch).can_link(NodeRef::frame(frame), NodeRef::user(meta)),
            r ==> final(batch).linked(
                old(batch),
                NodeRef::frame(frame),
                NodeRef::user(meta),
            ),
            !r ==> *final(batch) == *old(batch),
    {
        batch.link(NodeRef::new(Kind::Frame, frame), NodeRef::new(Kind::User, meta))
    }

    /// Takes the user record in slot `meta` out of the list of
    /// the frame in slot `frame`. The record stays in use, without an owner: nothing is
    /// released. Returns whether the list held it; where it did not,
    /// nothing has changed.
    pub fn remove_user_meta(batch: &mut BatchMeta, frame: usize, meta: usize) -> (r: bool)
        requires
            old(batch).wf(),
        ensures
            final(batch).wf(),
            r == old(batch).can_unlink(NodeRef::frame(frame), NodeRef::user(meta)),
            r ==> final(batch).unlinked(
                old(batch),
                NodeRef::frame(frame),
                NodeRef::user(meta),
            ),
            !r ==> *final(batch) == *old(batch),
    {
        batch.unlink(NodeRef::new(Kind::Frame, frame), NodeRef::new(Kind::User, meta))
    }

    /// Releases every object record in the list of the frame in slot `frame`,
    /// each with everything below it, and leaves the list empty. Returns
    /// whether the frame in slot `frame` is in use; where it is not, nothing has
    /// changed.
    pub fn clear_obj_meta_list(batch: &mut BatchMeta, frame: usize) -> (r: bool)
        requires
            old(batch).wf(),
        ensures
            final(batch).wf(),
            r == old(batch).live(NodeRef::frame(frame)),
            r ==> final(batch).cleared(old(batch), NodeRef::frame(frame), Kind::Object),
            !r ==> *final(batch) == *old(batch),
    {
        batch.clear_meta_list(NodeRef::new(Kind::Frame, frame), Kind::Object)
    }

    /// Releases every display record in the list of the frame in slot `frame`,
    /// each with everything below it, and leaves the list empty. Returns
    /// whether the frame in slot `frame` is in use; where it is not, nothing has
    /// changed.
    pub fn clear_display_meta_list(batch: &mut BatchMeta, frame: usize) -> (r: bool)
        requires
            old(batch).wf(),
        ensures
            final(batch).wf(),
            r == old(batch).live(NodeRef::frame(frame)),
            r ==> final(batch).cleared(old(batch), NodeRef::frame(frame), Kind::Display),
            !r ==> *final(batch) == *old(batch),
    {
        batch.clear_meta_list(NodeRef::new(Kind::Frame, frame), Kind::Display)
    }

    /// Releases every user record in the list of the frame in slot `frame`,
    /// each with everything below it, and leaves the list empty. Returns
    /// whether the frame in slot `frame` is in use; where it is not, nothing has
    /// changed.
    pub fn clear_user_meta_list(batch: &mut BatchMeta, frame: usize) -> (r: bool)
        requires
            old(batch).wf(),
        ensures
            final(batch).wf(),
            r == old(batch).live(NodeRef::frame(frame)),
            r ==> final(batch).cleared(old(batch), NodeRef::frame(frame), Kind::User),
            !r ==> *final(batch) == *old(batch),
    {
        batch.clear_meta_list(NodeRef::new(Kind::Frame, frame), Kind::User)
    }
}

impl ObjectMeta {
    /// The classifier records of the object in slot `object`, in
    /// the order in which they were added, or `None` where that slot is not
    /// in use or the list is empty.
    pub fn classifier_meta_list(
        batch: &BatchMeta,
        object: usize,
    ) -> (r: Option<MetaList<'_, ClassifierMeta>>)
        requires
            batch.wf(),
        ensures
            r is Some <==> batch.live(NodeRef::object(object))
                && batch.children(NodeRef::object(object), Kind::Classifier).len()
                > 0,
            r is Some ==> r.unwrap()@ == batch.children(
                NodeRef::object(object),
                Kind::Classifier,
            ),
    {
        batch.children_of(NodeRef::new(Kind::Object, object), Kind::Classifier)
    }

    /// The user records of the object in slot `object`, in
    /// the order in which they were added, or `None` where that slot is not
    /// in use or the list is empty.
    pub fn obj_user_meta_list(
        batch: &BatchMeta,
        object: usize,
    ) -> (r: Option<MetaList<'_, UserMeta>>)
        requires
            batch.wf(),
        ensures
            r is Some <==> batch.live(NodeRef::object(object))
                && batch.children(NodeRef::object(object), Kind::User).len()
                > 0,
            r is Some ==> r.unwrap()@ == batch.children(
                NodeRef::object(object),
                Kind::User,
            ),
    {
        batch.children_of(NodeRef::new(Kind::Object, object), Kind::User)
    }

    /// Adds the classifier record in slot `meta` as the last entry to
    /// the list of the object in slot `object`, which becomes its owner. Returns whether
    /// that was done: both are in use and the record is in no list yet.
    /// Where it was not done, nothing has changed.
    pub fn add_classifier_meta(batch: &mut BatchMeta, object: usize, meta: usize) -> (r: bool)
        requires
            old(batch).wf(),
        ensures
            final(batch).wf(),
            r == old(batch).can_link(NodeRef::object(object), NodeRef::classifier(meta)),
            r ==> final(batch).linked(
                old(batch),
                NodeRef::object(object),
                NodeRef::classifier(meta),
            ),
            !r ==> *final(batch) == *old(batch),
    {
        batch.link(NodeRef::new(Kind::Object, object), NodeRef::new(Kind::Classifier, meta))
    }

    /// Takes the classifier record in slot `meta` out of the list of
    /// the object in slot `object`. The record stays in use, without an owner: nothing is
    /// released. Returns whether the list held it; where it did not,
    /// nothing has changed.
    pub fn remove_classifier_meta(batch: &mut BatchMeta, object: usize, meta: usize) -> (r: bool)
        requires
            old(batch).wf(),
        ensures
            final(batch).wf(),
            r == old(batch).can_unlink(NodeRef::object(object), NodeRef::classifier(meta)),
            r ==> final(batch).unlinked(
                old(batch),
                NodeRef::object(object),
                NodeRef::classifier(meta),
            ),
            !r ==> *final(batch) == *old(batch),
    {
        batch.unlink(NodeRef::new(Kind::Object, object), NodeRef::new(Kind::Classifier, meta))
    }

    /// Adds the user record in slot `meta` as the last entry to
    /// the list of the object in slot `object`, which becomes its owner. Returns whether
    /// that was done: both are in use and the record is in no list yet.
    /// Where it was not done, nothing has changed.
    pub fn add_user_meta(batch: &mut BatchMeta, object: usize, meta: usize) -> (r: bool)
        requires
            old(batch).wf(),
        ensures
            final(batch).wf(),
            r == old(batch).can_link(NodeRef::object(object), NodeRef::user(meta)),
            r ==> final(batch).linked(
                old(batch),
                NodeRef::object(object),
                NodeRef::user(meta),
            ),
            !r ==> *final(batch) == *old(batch),
    {
        batch.link(NodeRef::new(Kind::Object, object), NodeRef::new(Kind::User, meta))
    }

    /// Takes the user record in slot `meta` out of the list of
    /// the object in slot `object`. The record stays in use, without an owner: nothing is
    /// released. Returns whether the list held it; where it did not,
    /// nothing has changed.
    pub fn remove_user_meta(batch: &mut BatchMeta, object: usize, meta: usize) -> (r: bool)
        requires
            old(batch).wf(),
        ensures
            final(batch).wf(),
            r == old(batch).can_unlink(NodeRef::object(object), NodeRef::user(meta)),
            r ==> final(batch).unlinked(
                old(batch),
                NodeRef::object(object),
                NodeRef::user(meta),
            ),
            !r ==> *final(batch) == *old(batch),
    {
        batch.unlink(NodeRef::new(Kind::Object, object), NodeRef::new(Kind::User, meta))
    }

    /// Releases every classifier record in the list of the object in slot `object`,
    /// each with everything below it, and leaves the list empty. Returns
    /// whether the object in slot `object` is in use; where it is not, nothing has
    /// changed.
    pub fn clear_classifier_meta_list(batch: &mut BatchMeta, object: usize) -> (r: bool)
        requires
            old(batch).wf(),
        ensures
            final(batch).wf(),
            r == old(batch).live(NodeRef::object(object)),
            r ==> final(batch).cleared(old(batch), NodeRef::object(object), Kind::Classifier),
            !r ==> *final(batch) == *old(batch),
    {
        batch.clear_meta_list(NodeRef::new(Kind::Object, object), Kind::Classifier)
    }

    /// Releases every user record in the list of the object in slot `object`,
    /// each with everything below it, and leaves the list empty. Returns
    /// whether the object in slot `object` is in use; where it is not, nothing has
    /// changed.
    pub fn clear_user_meta_list(batch: &mut BatchMeta, object: usize) -> (r: bool)
        requires
            old(batch).wf(),
        ensures
            final(batch).wf(),
            r == old(batch).live(NodeRef::object(object)),
            r ==> final(batch).cleared(old(batch), NodeRef::object(object), Kind::User),
            !r ==> *final(batch) == *old(batch),
    {
        batch.clear_meta_list(NodeRef::new(Kind::Object, object), Kind::User)
    }
}

impl ClassifierMeta {
    /// The label records of the classifier in slot `classifier`, in
    /// the order in which they were added, or `None` where that slot is not
    /// in use or the list is empty.
    pub fn label_info_list(
        batch: &BatchMeta,
        classifier: usize,
    ) -> (r: Option<MetaList<'_, LabelInfo>>)
        requires
            batch.wf(),
        ensures
            r is Some <==> batch.live(NodeRef::classifier(classifier))
                && batch.children(NodeRef::classifier(classifier), Kind::Label).len()
                > 0,
            r is Some ==> r.unwrap()@ == batch.children(
                NodeRef::classifier(classifier),
                Kind::Label,
            ),
    {
        batch.children_of(NodeRef::new(Kind::Classifier, classifier), Kind::Label)
    }

    /// Adds the label record in slot `meta` as the last entry to
    /// the list of the classifier in slot `classifier`, which becomes its owner. Returns whether
    /// that was done: both are in use and the record is in no list yet.
    /// Where it was not done, nothing has changed.
    pub fn add_label_info_meta(batch: &mut BatchMeta, classifier: usize, meta: usize) -> (r: bool)
        requires
            old(batch).wf(),
        ensures
            final(batch).wf(),
            r == old(batch).can_link(NodeRef::classifier(classifier), NodeRef::label(meta)),
            r ==> final(batch).linked(
                old(batch),
                NodeRef::classifier(classifier),
                NodeRef::label(meta),
            ),
            !r ==> *final(batch) == *old(batch),
    {
        batch.link(NodeRef::new(Kind::Classifier, classifier), NodeRef::new(Kind::Label, meta))
    }

    /// Takes the label record in slot `meta` out of the list of
    /// the classifier in slot `classifier`. The record stays in use, without an owner: nothing is
    /// released. Returns whether the list held it; where it did not,
    /// nothing has changed.
    pub fn remove_label_info_meta(
        batch: &mut BatchMeta,
        classifier: usize,
        meta: usize,
    ) -> (r: bool)
        requires
            old(batch).wf(),
        ensures
            final(batch).wf(),
            r == old(batch).can_unlink(NodeRef::classifier(classifier), NodeRef::label(meta)),
            r ==> final(batch).unlinked(
                old(batch),
                NodeRef::classifier(classifier),
                NodeRef::label(meta),
            ),
            !r ==> *final(batch) == *old(batch),
    {
        batch.unlink(NodeRef::new(Kind::Classifier, classifier), NodeRef::new(Kind::Label, meta))
    }

    /// Releases every label record in the list of the classifier in slot `classifier`,
    /// each with everything below it, and leaves the list empty. Returns
    /// whether the classifier in slot `classifier` is in use; where it is not, nothing has
    /// changed.
    pub fn clear_label_info_meta_list(batch: &mut BatchMeta, classifier: usize) -> (r: bool)
        requires
            old(batch).wf(),
        ensures
            final(batch).wf(),
            r == old(batch).live(NodeRef::classifier(classifier)),
            r ==> final(batch).cleared(old(batch), NodeRef::classifier(classifier), Kind::Label),
            !r ==> *final(batch) == *old(batch),
    {
        batch.clear_meta_list(NodeRef::new(Kind::Classifier, classifier), Kind::Label)
    }
}

} // verus!
