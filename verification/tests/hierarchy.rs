use nvds::batch::BatchMeta;
use nvds::classifier::ClassifierMeta;
use nvds::frame::{FrameData, FrameMeta};
use nvds::kind::{Kind, NodeRef};
use nvds::meta_type::{BaseMetaType, MetaType};
use nvds::object::{ObjectData, ObjectMeta};

fn batch_with_frame(capacity: u32) -> (BatchMeta, usize) {
    let mut batch = BatchMeta::create(capacity).unwrap();
    let frame = batch.acquire_frame_meta_from_pool().unwrap();
    assert!(batch.add_frame_meta(frame));
    (batch, frame)
}

#[test]
fn a_new_batch_is_empty_and_sized_to_its_capacity() {
    let batch = BatchMeta::create(4).unwrap();
    assert_eq!(batch.max_frames_in_batch(), 4);
    assert_eq!(batch.num_frames_in_batch(), 0);
    assert_eq!(batch.frame_meta_list().len(), 0);
    assert_eq!(batch.batch_user_meta_list().len(), 0);
    assert_eq!(batch.base_meta().meta_type(), MetaType::Base(BaseMetaType::BatchMeta));
    assert!(!batch.base_meta().batch_meta());
    for pool in [
        batch.frame_meta_pool(),
        batch.obj_meta_pool(),
        batch.classifier_meta_pool(),
        batch.display_meta_pool(),
        batch.user_meta_pool(),
        batch.label_info_meta_pool(),
    ] {
        assert_eq!(pool.max_elements_in_pool(), 4);
        assert_eq!(pool.num_empty_elements(), 4);
        assert_eq!(pool.num_full_elements(), 0);
        assert!(pool.full_list().is_none());
        assert_eq!(pool.empty_list().unwrap().to_vec(), vec![3, 2, 1, 0]);
    }
    assert_eq!(batch.frame_meta_pool().meta_type(), MetaType::Base(BaseMetaType::FrameMeta));
    assert_eq!(
        batch.label_info_meta_pool().meta_type(),
        MetaType::Base(BaseMetaType::LabelInfoMeta)
    );
}

#[test]
fn a_batch_of_capacity_zero_hands_out_nothing() {
    let mut batch = BatchMeta::create(0).unwrap();
    assert_eq!(batch.acquire_frame_meta_from_pool(), None);
    assert_eq!(batch.acquire_user_meta_from_pool(), None);
    assert_eq!(batch.max_frames_in_batch(), 0);
}

#[test]
fn pool_counts_always_add_up_to_the_capacity() {
    let mut batch = BatchMeta::create(3).unwrap();
    let check = |batch: &BatchMeta| {
        let pool = batch.obj_meta_pool();
        assert_eq!(pool.num_empty_elements() + pool.num_full_elements(), 3);
    };
    check(&batch);
    let a = batch.acquire_obj_meta_from_pool().unwrap();
    check(&batch);
    let b = batch.acquire_obj_meta_from_pool().unwrap();
    check(&batch);
    assert_eq!(batch.obj_meta_pool().num_full_elements(), 2);
    assert!(batch.release(NodeRef::new(Kind::Object, a)));
    check(&batch);
    assert!(batch.release(NodeRef::new(Kind::Object, b)));
    check(&batch);
    assert_eq!(batch.obj_meta_pool().num_full_elements(), 0);
}

#[test]
fn acquire_then_release_restores_the_pool() {
    let mut batch = BatchMeta::create(3).unwrap();
    let first = batch.acquire_classifier_meta_from_pool().unwrap();
    let free_before = batch.classifier_meta_pool().empty_list().unwrap().to_vec();
    let used_before = batch.classifier_meta_pool().full_list().unwrap().to_vec();
    let second = batch.acquire_classifier_meta_from_pool().unwrap();
    assert_ne!(first, second);
    assert!(batch.release(NodeRef::new(Kind::Classifier, second)));
    assert_eq!(batch.classifier_meta_pool().empty_list().unwrap().to_vec(), free_before);
    assert_eq!(batch.classifier_meta_pool().full_list().unwrap().to_vec(), used_before);
    assert_eq!(batch.classifier_meta_pool().num_empty_elements(), 2);
    assert_eq!(batch.classifier_meta_pool().num_full_elements(), 1);
}

#[test]
fn frames_are_listed_in_the_order_in_which_they_were_added() {
    let mut batch = BatchMeta::create(3).unwrap();
    let a = batch.acquire_frame_meta_from_pool().unwrap();
    let b = batch.acquire_frame_meta_from_pool().unwrap();
    let c = batch.acquire_frame_meta_from_pool().unwrap();
    assert!(batch.add_frame_meta(b));
    assert!(batch.add_frame_meta(a));
    assert!(batch.add_frame_meta(c));
    assert_eq!(batch.num_frames_in_batch(), 3);
    assert_eq!(batch.frame_meta_list().to_vec(), vec![b, a, c]);
    assert_eq!(batch.frame_meta_list().get_nth_frame_meta(1), Some(a));
    assert_eq!(batch.frame_meta_list().get_nth_frame_meta(3), None);
    assert!(batch.remove_frame_meta(a));
    assert_eq!(batch.frame_meta_list().to_vec(), vec![b, c]);
    assert_eq!(batch.num_frames_in_batch(), 2);
    assert!(batch.is_live(NodeRef::new(Kind::Frame, a)));
    assert_eq!(batch.owner_of(NodeRef::new(Kind::Frame, a)), None);
    assert_eq!(batch.owner_of(NodeRef::new(Kind::Frame, b)), Some(NodeRef::batch()));
}

#[test]
fn a_record_cannot_be_added_twice_or_before_it_is_acquired() {
    let mut batch = BatchMeta::create(2).unwrap();
    assert!(!batch.add_frame_meta(0));
    let frame = batch.acquire_frame_meta_from_pool().unwrap();
    assert!(batch.add_frame_meta(frame));
    assert!(!batch.add_frame_meta(frame));
    assert_eq!(batch.num_frames_in_batch(), 1);
    assert!(!batch.remove_frame_meta(1));
    assert!(!batch.add_frame_meta(17));
}

#[test]
fn a_record_goes_only_into_a_list_of_its_kind() {
    let (mut batch, frame) = batch_with_frame(2);
    let label = batch.acquire_label_info_meta_from_pool().unwrap();
    assert!(!batch.link(NodeRef::new(Kind::Frame, frame), NodeRef::new(Kind::Label, label)));
    assert!(!batch.link(NodeRef::batch(), NodeRef::new(Kind::Label, label)));
    let classifier = batch.acquire_classifier_meta_from_pool().unwrap();
    assert!(ClassifierMeta::add_label_info_meta(&mut batch, classifier, label));
    assert_eq!(batch.classifier_meta(classifier).unwrap().num_labels(), 1);
    assert_eq!(
        ClassifierMeta::label_info_list(&batch, classifier).unwrap().to_vec(),
        vec![label]
    );
}

#[test]
fn child_object_names_its_parent_and_outlives_its_removal() {
    let (mut batch, frame) = batch_with_frame(4);
    let a = batch.acquire_obj_meta_from_pool().unwrap();
    let b = batch.acquire_obj_meta_from_pool().unwrap();
    assert!(FrameMeta::add_obj_meta(&mut batch, frame, a, None));
    assert!(FrameMeta::add_obj_meta(&mut batch, frame, b, Some(a)));
    assert_eq!(ObjectMeta::parent(&batch, b), Some(a));
    assert_eq!(ObjectMeta::parent(&batch, a), None);
    assert_eq!(batch.frame_meta(frame).unwrap().num_obj_meta(), 2);
    assert_eq!(FrameMeta::obj_meta_list(&batch, frame).unwrap().to_vec(), vec![a, b]);

    assert!(FrameMeta::remove_obj_meta(&mut batch, frame, b));
    assert!(batch.is_live(NodeRef::new(Kind::Object, b)));
    assert_eq!(batch.obj_meta_pool().num_full_elements(), 2);
    assert_eq!(batch.frame_meta(frame).unwrap().num_obj_meta(), 1);
    assert_eq!(ObjectMeta::parent(&batch, b), None);

    assert!(FrameMeta::add_obj_meta(&mut batch, frame, b, Some(a)));
    assert!(FrameMeta::clear_obj_meta_list(&mut batch, frame));
    assert!(!batch.is_live(NodeRef::new(Kind::Object, a)));
    assert!(!batch.is_live(NodeRef::new(Kind::Object, b)));
    assert_eq!(batch.obj_meta_pool().num_full_elements(), 0);
    assert!(FrameMeta::obj_meta_list(&batch, frame).is_none());
    assert_eq!(batch.frame_meta(frame).unwrap().num_obj_meta(), 0);
}

#[test]
fn removed_object_is_released_by_an_explicit_release() {
    let (mut batch, frame) = batch_with_frame(4);
    let a = batch.acquire_obj_meta_from_pool().unwrap();
    assert!(FrameMeta::add_obj_meta(&mut batch, frame, a, None));
    assert!(!batch.release(NodeRef::new(Kind::Object, a)));
    assert!(FrameMeta::remove_obj_meta(&mut batch, frame, a));
    assert!(batch.release(NodeRef::new(Kind::Object, a)));
    assert!(!batch.is_live(NodeRef::new(Kind::Object, a)));
    assert_eq!(batch.obj_meta_pool().num_empty_elements(), 4);
}

#[test]
fn parent_must_be_an_object_of_the_same_frame() {
    let mut batch = BatchMeta::create(4).unwrap();
    let f1 = batch.acquire_frame_meta_from_pool().unwrap();
    let f2 = batch.acquire_frame_meta_from_pool().unwrap();
    assert!(batch.add_frame_meta(f1));
    assert!(batch.add_frame_meta(f2));
    let a = batch.acquire_obj_meta_from_pool().unwrap();
    let b = batch.acquire_obj_meta_from_pool().unwrap();
    let c = batch.acquire_obj_meta_from_pool().unwrap();
    assert!(FrameMeta::add_obj_meta(&mut batch, f1, a, None));
    assert!(!FrameMeta::add_obj_meta(&mut batch, f2, b, Some(a)));
    assert_eq!(batch.owner_of(NodeRef::new(Kind::Object, b)), None);
    assert!(!FrameMeta::add_obj_meta(&mut batch, f1, b, Some(c)));
    assert!(!FrameMeta::add_obj_meta(&mut batch, f1, b, Some(b)));
    assert!(FrameMeta::add_obj_meta(&mut batch, f1, b, Some(a)));
    assert_eq!(ObjectMeta::parent(&batch, b), Some(a));
}

#[test]
fn parent_reference_does_not_resolve_to_a_reused_slot() {
    let (mut batch, frame) = batch_with_frame(2);
    let a = batch.acquire_obj_meta_from_pool().unwrap();
    let b = batch.acquire_obj_meta_from_pool().unwrap();
    assert!(FrameMeta::add_obj_meta(&mut batch, frame, a, None));
    assert!(FrameMeta::add_obj_meta(&mut batch, frame, b, Some(a)));
    assert!(FrameMeta::remove_obj_meta(&mut batch, frame, a));
    assert!(batch.release(NodeRef::new(Kind::Object, a)));
    assert_eq!(ObjectMeta::parent(&batch, b), None);
    let again = batch.acquire_obj_meta_from_pool().unwrap();
    assert_eq!(again, a);
    assert!(FrameMeta::add_obj_meta(&mut batch, frame, again, None));
    assert_eq!(ObjectMeta::parent(&batch, b), None);
    assert_eq!(batch.generation_of(NodeRef::new(Kind::Object, again)), Some(2));
}

#[test]
fn acquired_records_are_fresh() {
    let (mut batch, frame) = batch_with_frame(2);
    let mut data = FrameData::new();
    data.pad_index = 7;
    data.frame_num = -3;
    data.buf_pts = 1_000_000;
    data.misc_frame_info = [1, 2, 3, 4];
    data.infer_done = true;
    assert!(batch.set_frame_data(frame, data));
    {
        let f = batch.frame_meta(frame).unwrap();
        assert_eq!(f.pad_index(), 7);
        assert_eq!(f.frame_num(), -3);
        assert_eq!(f.buf_pts(), 1_000_000);
        assert_eq!(f.misc_frame_info(), [1, 2, 3, 4]);
        assert!(f.infer_done());
        assert_eq!(f.base_meta().meta_type(), MetaType::Base(BaseMetaType::FrameMeta));
        assert!(f.base_meta().batch_meta());
    }
    assert!(batch.remove_frame_meta(frame));
    assert!(batch.release(NodeRef::new(Kind::Frame, frame)));
    assert!(batch.frame_meta(frame).is_none());
    assert!(!batch.set_frame_data(frame, FrameData::new()));
    let again = batch.acquire_frame_meta_from_pool().unwrap();
    assert_eq!(again, frame);
    let f = batch.frame_meta(again).unwrap();
    assert_eq!(f.pad_index(), 0);
    assert_eq!(f.frame_num(), 0);
    assert_eq!(f.buf_pts(), 0);
    assert_eq!(f.misc_frame_info(), [0, 0, 0, 0]);
    assert!(!f.infer_done());
    assert_eq!(f.num_obj_meta(), 0);
}

#[test]
fn object_data_is_read_back_as_written() {
    let (mut batch, frame) = batch_with_frame(2);
    let object = batch.acquire_obj_meta_from_pool().unwrap();
    let mut data = ObjectData::new();
    data.class_id = 2;
    data.object_id = 99;
    data.unique_component_id = 5;
    data.confidence_bits = 0.75f32.to_bits();
    data.obj_label = String::from("person");
    data.rect_params.left_bits = 10.5f32.to_bits();
    data.mask_params.data_bits = vec![1, 2, 3];
    data.misc_obj_info = [9, 8, 7, 6];
    assert!(batch.set_obj_data(object, data));
    assert!(FrameMeta::add_obj_meta(&mut batch, frame, object, None));
    let o = batch.obj_meta(object).unwrap();
    assert_eq!(o.class_id(), 2);
    assert_eq!(o.object_id(), 99);
    assert_eq!(o.unique_component_id(), 5);
    assert_eq!(f32::from_bits(o.confidence_bits()), 0.75);
    assert_eq!(o.tracker_confidence_bits(), 0);
    assert_eq!(o.obj_label(), "person");
    assert_eq!(f32::from_bits(o.rect_params().left_bits), 10.5);
    assert_eq!(o.mask_params().data_bits, vec![1, 2, 3]);
    assert_eq!(o.misc_obj_info(), [9, 8, 7, 6]);
    assert_eq!(o.text_params().display_text, "");
    assert_eq!(o.detector_bbox_info().width_bits, 0);
    assert_eq!(o.tracker_bbox_info().width_bits, 0);
    assert_eq!(o.base_meta().meta_type(), MetaType::Base(BaseMetaType::ObjMeta));
}

#[test]
fn clearing_the_frames_of_a_batch_releases_every_level() {
    let (mut batch, frame) = batch_with_frame(3);
    let object = batch.acquire_obj_meta_from_pool().unwrap();
    let classifier = batch.acquire_classifier_meta_from_pool().unwrap();
    let label = batch.acquire_label_info_meta_from_pool().unwrap();
    let display = batch.acquire_display_meta_from_pool().unwrap();
    let user_f = batch.acquire_user_meta_from_pool().unwrap();
    let user_o = batch.acquire_user_meta_from_pool().unwrap();
    let user_b = batch.acquire_user_meta_from_pool().unwrap();
    assert!(FrameMeta::add_obj_meta(&mut batch, frame, object, None));
    assert!(ObjectMeta::add_classifier_meta(&mut batch, object, classifier));
    assert!(ClassifierMeta::add_label_info_meta(&mut batch, classifier, label));
    assert!(FrameMeta::add_display_meta(&mut batch, frame, display));
    assert!(FrameMeta::add_user_meta(&mut batch, frame, user_f));
    assert!(ObjectMeta::add_user_meta(&mut batch, object, user_o));
    assert!(batch.add_user_meta(user_b));
    assert_eq!(FrameMeta::display_meta_list(&batch, frame).unwrap().to_vec(), vec![display]);
    assert_eq!(FrameMeta::frame_user_meta_list(&batch, frame).unwrap().to_vec(), vec![user_f]);
    assert_eq!(ObjectMeta::obj_user_meta_list(&batch, object).unwrap().to_vec(), vec![user_o]);
    assert_eq!(
        ObjectMeta::classifier_meta_list(&batch, object).unwrap().to_vec(),
        vec![classifier]
    );

    assert!(batch.clear_frame_meta_list());
    assert_eq!(batch.num_frames_in_batch(), 0);
    assert_eq!(batch.frame_meta_pool().num_full_elements(), 0);
    assert_eq!(batch.obj_meta_pool().num_full_elements(), 0);
    assert_eq!(batch.classifier_meta_pool().num_full_elements(), 0);
    assert_eq!(batch.label_info_meta_pool().num_full_elements(), 0);
    assert_eq!(batch.display_meta_pool().num_full_elements(), 0);
    assert_eq!(batch.user_meta_pool().num_full_elements(), 1);
    assert_eq!(batch.batch_user_meta_list().to_vec(), vec![user_b]);
    assert!(batch.clear_user_meta_list());
    assert_eq!(batch.user_meta_pool().num_full_elements(), 0);
    assert!(batch.user_meta_pool().empty_list().unwrap().contains(user_b));
}

#[test]
fn clearing_one_list_leaves_the_others() {
    let (mut batch, frame) = batch_with_frame(3);
    let object = batch.acquire_obj_meta_from_pool().unwrap();
    let display = batch.acquire_display_meta_from_pool().unwrap();
    let user = batch.acquire_user_meta_from_pool().unwrap();
    let classifier = batch.acquire_classifier_meta_from_pool().unwrap();
    let user_o = batch.acquire_user_meta_from_pool().unwrap();
    let label = batch.acquire_label_info_meta_from_pool().unwrap();
    assert!(FrameMeta::add_obj_meta(&mut batch, frame, object, None));
    assert!(FrameMeta::add_display_meta(&mut batch, frame, display));
    assert!(FrameMeta::add_user_meta(&mut batch, frame, user));
    assert!(ObjectMeta::add_classifier_meta(&mut batch, object, classifier));
    assert!(ObjectMeta::add_user_meta(&mut batch, object, user_o));
    assert!(ClassifierMeta::add_label_info_meta(&mut batch, classifier, label));

    assert!(ClassifierMeta::clear_label_info_meta_list(&mut batch, classifier));
    assert!(!batch.is_live(NodeRef::new(Kind::Label, label)));
    assert_eq!(batch.classifier_meta(classifier).unwrap().num_labels(), 0);
    assert!(ObjectMeta::clear_user_meta_list(&mut batch, object));
    assert!(!batch.is_live(NodeRef::new(Kind::User, user_o)));
    assert!(batch.is_live(NodeRef::new(Kind::User, user)));
    assert!(ObjectMeta::clear_classifier_meta_list(&mut batch, object));
    assert!(!batch.is_live(NodeRef::new(Kind::Classifier, classifier)));
    assert!(FrameMeta::clear_display_meta_list(&mut batch, frame));
    assert!(!batch.is_live(NodeRef::new(Kind::Display, display)));
    assert!(batch.is_live(NodeRef::new(Kind::Object, object)));
    assert!(FrameMeta::clear_user_meta_list(&mut batch, frame));
    assert!(!batch.is_live(NodeRef::new(Kind::User, user)));
    assert!(batch.is_live(NodeRef::new(Kind::Object, object)));
    assert!(!FrameMeta::clear_obj_meta_list(&mut batch, 2));
    assert!(!ObjectMeta::remove_classifier_meta(&mut batch, object, classifier));
    assert!(!ObjectMeta::remove_user_meta(&mut batch, object, user_o));
    assert!(!FrameMeta::remove_display_meta(&mut batch, frame, display));
    assert!(!FrameMeta::remove_user_meta(&mut batch, frame, user));
    assert!(!ClassifierMeta::remove_label_info_meta(&mut batch, classifier, label));
    assert!(!batch.remove_user_meta(user));
}

#[test]
fn the_lock_counts_how_often_it_is_held() {
    let mut batch = BatchMeta::create(1).unwrap();
    assert!(!batch.is_meta_locked());
    batch.acquire_meta_lock();
    batch.acquire_meta_lock();
    assert!(batch.is_meta_locked());
    batch.release_meta_lock();
    assert!(batch.is_meta_locked());
    batch.release_meta_lock();
    assert!(!batch.is_meta_locked());
    batch.release_meta_lock();
    assert!(!batch.is_meta_locked());
    let frame = batch.acquire_frame_meta_from_pool().unwrap();
    batch.acquire_meta_lock();
    assert!(batch.add_frame_meta(frame));
    batch.release_meta_lock();
    assert_eq!(batch.num_frames_in_batch(), 1);
}

#[test]
fn a_stage_keeps_a_value_of_its_own_with_a_record() {
    let (mut batch, frame) = batch_with_frame(2);
    let f = NodeRef::new(Kind::Frame, frame);
    let object = batch.acquire_obj_meta_from_pool().unwrap();
    assert!(FrameMeta::add_obj_meta(&mut batch, frame, object, None));
    assert!(batch.set_user_context(f, 0xfeed));
    assert!(batch.set_user_context(NodeRef::batch(), 7));
    assert!(!batch.set_user_context(NodeRef::new(Kind::Frame, 1), 1));
    assert_eq!(batch.frame_meta(frame).unwrap().base_meta().user_context(), 0xfeed);
    assert_eq!(batch.frame_meta(frame).unwrap().num_obj_meta(), 1);
    assert_eq!(batch.base_meta().user_context(), 7);
    assert_eq!(batch.record_of(f).unwrap().base_meta().user_context(), 0xfeed);
    assert_eq!(batch.owner_of(f), Some(NodeRef::batch()));
}

#[test]
fn each_pool_gets_back_one_slot_for_each_record_released() {
    let (mut batch, frame) = batch_with_frame(4);
    for _ in 0..2 {
        let object = batch.acquire_obj_meta_from_pool().unwrap();
        assert!(FrameMeta::add_obj_meta(&mut batch, frame, object, None));
        for _ in 0..2 {
            let classifier = batch.acquire_classifier_meta_from_pool().unwrap();
            assert!(ObjectMeta::add_classifier_meta(&mut batch, object, classifier));
            let label = batch.acquire_label_info_meta_from_pool().unwrap();
            assert!(ClassifierMeta::add_label_info_meta(&mut batch, classifier, label));
        }
    }
    let spare = batch.acquire_label_info_meta_from_pool();
    assert_eq!(spare, None);
    assert_eq!(batch.obj_meta_pool().num_empty_elements(), 2);
    assert_eq!(batch.classifier_meta_pool().num_empty_elements(), 0);
    assert_eq!(batch.fits(NodeRef::new(Kind::Frame, frame), Kind::Classifier, 4), Some(0));
    let first = FrameMeta::obj_meta_list(&batch, frame).unwrap().to_vec()[0];
    assert!(FrameMeta::remove_obj_meta(&mut batch, frame, first));
    assert!(batch.release(NodeRef::new(Kind::Object, first)));
    assert_eq!(batch.obj_meta_pool().num_empty_elements(), 3);
    assert_eq!(batch.classifier_meta_pool().num_empty_elements(), 2);
    assert_eq!(batch.label_info_meta_pool().num_empty_elements(), 2);
    assert!(FrameMeta::clear_obj_meta_list(&mut batch, frame));
    assert_eq!(batch.obj_meta_pool().num_empty_elements(), 4);
    assert_eq!(batch.classifier_meta_pool().num_empty_elements(), 4);
    assert_eq!(batch.label_info_meta_pool().num_empty_elements(), 4);
    assert_eq!(batch.frame_meta_pool().num_empty_elements(), 3);
}

#[test]
fn releasing_everything_leaves_every_pool_free() {
    let (mut batch, frame) = batch_with_frame(3);
    let object = batch.acquire_obj_meta_from_pool().unwrap();
    let classifier = batch.acquire_classifier_meta_from_pool().unwrap();
    let label = batch.acquire_label_info_meta_from_pool().unwrap();
    assert!(FrameMeta::add_obj_meta(&mut batch, frame, object, None));
    assert!(ObjectMeta::add_classifier_meta(&mut batch, object, classifier));
    assert!(ClassifierMeta::add_label_info_meta(&mut batch, classifier, label));
    let user = batch.acquire_user_meta_from_pool().unwrap();
    assert!(batch.add_user_meta(user));
    let _loose_frame = batch.acquire_frame_meta_from_pool().unwrap();
    let _loose_label = batch.acquire_label_info_meta_from_pool().unwrap();
    let _loose_display = batch.acquire_display_meta_from_pool().unwrap();
    batch.acquire_meta_lock();

    batch.release_all();
    assert!(batch.is_meta_locked());
    assert_eq!(batch.num_frames_in_batch(), 0);
    assert_eq!(batch.batch_user_meta_list().len(), 0);
    for pool in [
        batch.frame_meta_pool(),
        batch.obj_meta_pool(),
        batch.classifier_meta_pool(),
        batch.display_meta_pool(),
        batch.user_meta_pool(),
        batch.label_info_meta_pool(),
    ] {
        assert_eq!(pool.num_full_elements(), 0);
        assert_eq!(pool.num_empty_elements(), 3);
        assert_eq!(pool.max_elements_in_pool(), 3);
    }
    assert!(batch.acquire_frame_meta_from_pool().is_some());
    batch.release_all();
    assert_eq!(batch.frame_meta_pool().num_full_elements(), 0);
    batch.destroy();
}
