use nvds::batch::BatchMeta;
use nvds::classifier::{ClassifierData, ClassifierMeta, LabelData, LabelInfo};
use nvds::display::{DisplayData, DisplayMeta};
use nvds::frame::{FrameData, FrameMeta};
use nvds::kind::{Kind, NodeRef};
use nvds::list::SlotList;
use nvds::meta_type::MetaType;
use nvds::object::{ObjectData, ObjectMeta};
use nvds::osd::RectParams;
use nvds::user::{UserMeta, UserPayload};

struct Source {
    batch: BatchMeta,
    frame: usize,
    object: usize,
    classifier: usize,
    label: usize,
}

fn source() -> Source {
    let mut batch = BatchMeta::create(4).unwrap();
    let frame = batch.acquire_frame_meta_from_pool().unwrap();
    let mut fd = FrameData::new();
    fd.frame_num = 42;
    fd.source_id = 3;
    fd.pipeline_width = 1920;
    fd.pipeline_height = 1080;
    assert!(batch.set_frame_data(frame, fd));
    assert!(batch.add_frame_meta(frame));

    let object = batch.acquire_obj_meta_from_pool().unwrap();
    let mut od = ObjectData::new();
    od.class_id = 1;
    od.object_id = 77;
    od.obj_label = String::from("car");
    assert!(batch.set_obj_data(object, od));
    assert!(FrameMeta::add_obj_meta(&mut batch, frame, object, None));

    let child = batch.acquire_obj_meta_from_pool().unwrap();
    let mut cd = ObjectData::new();
    cd.class_id = 2;
    cd.obj_label = String::from("plate");
    assert!(batch.set_obj_data(child, cd));
    assert!(FrameMeta::add_obj_meta(&mut batch, frame, child, Some(object)));

    let classifier = batch.acquire_classifier_meta_from_pool().unwrap();
    let mut kd = ClassifierData::new();
    kd.unique_component_id = 9;
    kd.classifier_type = String::from("colour");
    assert!(batch.set_classifier_data(classifier, kd));
    assert!(ObjectMeta::add_classifier_meta(&mut batch, object, classifier));

    let label = batch.acquire_label_info_meta_from_pool().unwrap();
    let mut ld = LabelData::new();
    ld.result_label = String::from("red");
    ld.result_class_id = 4;
    ld.result_prob_bits = 0.5f32.to_bits();
    assert!(batch.set_label_info_data(label, ld));
    assert!(ClassifierMeta::add_label_info_meta(&mut batch, classifier, label));

    let display = batch.acquire_display_meta_from_pool().unwrap();
    let mut dd = DisplayData::new();
    let mut rect = RectParams::new();
    rect.border_width = 3;
    dd.rect_params = vec![rect];
    assert!(batch.set_display_data(display, dd));
    assert!(FrameMeta::add_display_meta(&mut batch, frame, display));

    let user = UserMeta::new(&mut batch, MetaType::User(9000), UserPayload::Custom(vec![1, 2, 3]))
        .unwrap();
    assert!(ObjectMeta::add_user_meta(&mut batch, object, user));
    Source { batch, frame, object, classifier, label }
}

#[test]
fn copying_a_frame_copies_everything_below_it() {
    let src = source();
    let mut dst = BatchMeta::create(4).unwrap();
    let target = dst.acquire_frame_meta_from_pool().unwrap();
    assert!(dst.add_frame_meta(target));
    assert!(FrameMeta::copy_to(&src.batch, src.frame, &mut dst, target));

    let f = dst.frame_meta(target).unwrap();
    assert_eq!(f.frame_num(), 42);
    assert_eq!(f.source_id(), 3);
    assert_eq!(f.pipeline_width(), 1920);
    assert_eq!(f.pipeline_height(), 1080);
    assert_eq!(f.num_obj_meta(), 2);
    assert_eq!(dst.owner_of(NodeRef::new(Kind::Frame, target)), Some(NodeRef::batch()));

    let objects = FrameMeta::obj_meta_list(&dst, target).unwrap().to_vec();
    assert_eq!(objects.len(), 2);
    let car = dst.obj_meta(objects[0]).unwrap();
    assert_eq!(car.obj_label(), "car");
    assert_eq!(car.class_id(), 1);
    assert_eq!(car.object_id(), 77);
    assert_eq!(dst.obj_meta(objects[1]).unwrap().obj_label(), "plate");
    assert_eq!(ObjectMeta::parent(&dst, objects[1]), None);

    let classifiers = ObjectMeta::classifier_meta_list(&dst, objects[0]).unwrap().to_vec();
    assert_eq!(classifiers.len(), 1);
    let k = dst.classifier_meta(classifiers[0]).unwrap();
    assert_eq!(k.classifier_type(), "colour");
    assert_eq!(k.unique_component_id(), 9);
    assert_eq!(k.num_labels(), 1);
    let labels = ClassifierMeta::label_info_list(&dst, classifiers[0]).unwrap().to_vec();
    let l = dst.label_info_meta(labels[0]).unwrap();
    assert_eq!(l.result_label(), "red");
    assert_eq!(l.result_class_id(), 4);
    assert_eq!(f32::from_bits(l.result_prob_bits()), 0.5);

    let users = ObjectMeta::obj_user_meta_list(&dst, objects[0]).unwrap().to_vec();
    let u = dst.user_meta(users[0]).unwrap();
    assert_eq!(u.base_meta().meta_type(), MetaType::User(9000));
    match u.user_meta_data() {
        Some(UserPayload::Custom(bytes)) => assert_eq!(bytes, &vec![1, 2, 3]),
        _ => panic!("the copy lost its payload"),
    }
    let displays = FrameMeta::display_meta_list(&dst, target).unwrap().to_vec();
    let d = dst.display_meta(displays[0]).unwrap();
    assert_eq!(d.num_rects(), 1);
    assert_eq!(d.rect_params()[0].border_width, 3);

    assert_eq!(dst.obj_meta_pool().num_full_elements(), 2);
    assert_eq!(dst.classifier_meta_pool().num_full_elements(), 1);
    assert_eq!(dst.label_info_meta_pool().num_full_elements(), 1);
    assert_eq!(dst.user_meta_pool().num_full_elements(), 1);
    assert_eq!(dst.display_meta_pool().num_full_elements(), 1);
    assert_eq!(dst.frame_meta_pool().num_full_elements(), 1);
}

#[test]
fn a_copy_does_not_change_with_its_source() {
    let mut src = source();
    let mut dst = BatchMeta::create(4).unwrap();
    let target = dst.acquire_obj_meta_from_pool().unwrap();
    assert!(ObjectMeta::copy_to(&src.batch, src.object, &mut dst, target));

    let mut changed = ObjectData::new();
    changed.obj_label = String::from("truck");
    assert!(src.batch.set_obj_data(src.object, changed));
    let mut relabel = LabelData::new();
    relabel.result_label = String::from("blue");
    assert!(src.batch.set_label_info_data(src.label, relabel));
    assert!(src.batch.clear_frame_meta_list());
    assert!(!src.batch.is_live(NodeRef::new(Kind::Object, src.object)));

    assert_eq!(dst.obj_meta(target).unwrap().obj_label(), "car");
    let classifiers = ObjectMeta::classifier_meta_list(&dst, target).unwrap().to_vec();
    let labels = ClassifierMeta::label_info_list(&dst, classifiers[0]).unwrap().to_vec();
    assert_eq!(dst.label_info_meta(labels[0]).unwrap().result_label(), "red");
    assert!(ObjectMeta::obj_user_meta_list(&dst, target).is_some());
}

#[test]
fn a_copy_is_made_as_a_whole_or_not_at_all() {
    let src = source();
    let mut dst = BatchMeta::create(1).unwrap();
    let target = dst.acquire_frame_meta_from_pool().unwrap();
    assert!(!FrameMeta::copy_to(&src.batch, src.frame, &mut dst, target));
    assert_eq!(dst.frame_meta(target).unwrap().frame_num(), 0);
    assert_eq!(dst.obj_meta_pool().num_full_elements(), 0);
    assert_eq!(dst.classifier_meta_pool().num_full_elements(), 0);
    assert_eq!(dst.label_info_meta_pool().num_full_elements(), 0);
    assert_eq!(dst.user_meta_pool().num_full_elements(), 0);
    assert_eq!(dst.display_meta_pool().num_full_elements(), 0);

    let mut dst = BatchMeta::create(2).unwrap();
    let target = dst.acquire_frame_meta_from_pool().unwrap();
    assert!(FrameMeta::copy_to(&src.batch, src.frame, &mut dst, target));
    assert_eq!(dst.obj_meta_pool().num_empty_elements(), 0);
}

#[test]
fn copy_needs_records_of_the_same_kind_in_use_and_an_empty_target() {
    let src = source();
    let mut dst = BatchMeta::create(4).unwrap();
    assert!(!FrameMeta::copy_to(&src.batch, src.frame, &mut dst, 0));
    let target = dst.acquire_frame_meta_from_pool().unwrap();
    assert!(!FrameMeta::copy_to(&src.batch, 3, &mut dst, target));
    assert!(!BatchMeta::copy_record(
        &src.batch,
        NodeRef::new(Kind::Object, src.object),
        &mut dst,
        NodeRef::new(Kind::Frame, target)
    ));
    assert!(!BatchMeta::copy_record(&src.batch, NodeRef::batch(), &mut dst, NodeRef::batch()));
    let display = dst.acquire_display_meta_from_pool().unwrap();
    assert!(FrameMeta::add_display_meta(&mut dst, target, display));
    assert!(!FrameMeta::copy_to(&src.batch, src.frame, &mut dst, target));
    assert!(FrameMeta::remove_display_meta(&mut dst, target, display));
    assert!(FrameMeta::copy_to(&src.batch, src.frame, &mut dst, target));
}

#[test]
fn copying_leaf_records_copies_their_fields() {
    let src = source();
    let mut dst = BatchMeta::create(2).unwrap();
    let label = dst.acquire_label_info_meta_from_pool().unwrap();
    assert!(LabelInfo::copy_to(&src.batch, src.label, &mut dst, label));
    assert_eq!(dst.label_info_meta(label).unwrap().result_label(), "red");
    assert_eq!(dst.label_info_meta(label).unwrap().label_id(), 0);
    assert_eq!(dst.label_info_meta(label).unwrap().num_classes(), 0);

    let classifier = dst.acquire_classifier_meta_from_pool().unwrap();
    assert!(ClassifierMeta::copy_to(&src.batch, src.classifier, &mut dst, classifier));
    assert_eq!(dst.classifier_meta(classifier).unwrap().classifier_type(), "colour");
    assert_eq!(dst.classifier_meta(classifier).unwrap().num_labels(), 1);
    assert_eq!(dst.label_info_meta_pool().num_full_elements(), 2);

    let display = dst.acquire_display_meta_from_pool().unwrap();
    let from = FrameMeta::display_meta_list(&src.batch, src.frame).unwrap().to_vec()[0];
    assert!(DisplayMeta::copy_to(&src.batch, from, &mut dst, display));
    assert_eq!(dst.display_meta(display).unwrap().rect_params()[0].border_width, 3);
}

#[test]
fn lists_are_copied_in_their_order_behind_what_is_there() {
    let src = source();
    let mut dst = BatchMeta::create(4).unwrap();
    let frame = dst.acquire_frame_meta_from_pool().unwrap();
    assert!(dst.add_frame_meta(frame));
    let own = dst.acquire_obj_meta_from_pool().unwrap();
    assert!(FrameMeta::add_obj_meta(&mut dst, frame, own, None));

    let list = FrameMeta::obj_meta_list(&src.batch, src.frame).unwrap();
    assert!(list.copy_to_frame_meta(&src.batch, &mut dst, frame));
    let objects = FrameMeta::obj_meta_list(&dst, frame).unwrap().to_vec();
    assert_eq!(objects.len(), 3);
    assert_eq!(objects[0], own);
    assert_eq!(dst.obj_meta(objects[1]).unwrap().obj_label(), "car");
    assert_eq!(dst.obj_meta(objects[2]).unwrap().obj_label(), "plate");
    assert_eq!(dst.frame_meta(frame).unwrap().num_obj_meta(), 3);
    assert_eq!(
        dst.owner_of(NodeRef::new(Kind::Object, objects[1])),
        Some(NodeRef::new(Kind::Frame, frame))
    );

    let displays = FrameMeta::display_meta_list(&src.batch, src.frame).unwrap();
    assert!(displays.copy_to_frame_meta(&src.batch, &mut dst, frame));
    assert_eq!(FrameMeta::display_meta_list(&dst, frame).unwrap().len(), 1);

    let classifiers = ObjectMeta::classifier_meta_list(&src.batch, src.object).unwrap();
    assert!(classifiers.copy_to_obj_meta(&src.batch, &mut dst, own));
    let copied = ObjectMeta::classifier_meta_list(&dst, own).unwrap().to_vec();
    assert_eq!(dst.classifier_meta(copied[0]).unwrap().num_labels(), 1);

    let labels = ClassifierMeta::label_info_list(&src.batch, src.classifier).unwrap();
    assert!(labels.copy_to_obj_meta(&src.batch, &mut dst, copied[0]));
    assert_eq!(dst.classifier_meta(copied[0]).unwrap().num_labels(), 2);

    let users = ObjectMeta::obj_user_meta_list(&src.batch, src.object).unwrap();
    assert!(users.copy_to_obj_meta(&src.batch, &mut dst, own));
    assert!(users.copy_to_frame_meta(&src.batch, &mut dst, frame));
    assert!(users.copy_to_batch_meta(&src.batch, &mut dst));
    assert_eq!(dst.batch_user_meta_list().len(), 1);
    assert_eq!(FrameMeta::frame_user_meta_list(&dst, frame).unwrap().len(), 1);
    assert_eq!(dst.user_meta_pool().num_full_elements(), 4);
    assert!(!users.copy_to_batch_meta(&src.batch, &mut dst));
    assert_eq!(dst.user_meta_pool().num_full_elements(), 4);
}

#[test]
fn the_frames_of_a_batch_are_copied_into_another() {
    let src = source();
    let mut dst = BatchMeta::create(4).unwrap();
    assert!(src.batch.frame_meta_list().copy_to_batch_meta(&src.batch, &mut dst));
    assert_eq!(dst.num_frames_in_batch(), 1);
    let frame = dst.frame_meta_list().to_vec()[0];
    assert_eq!(dst.frame_meta(frame).unwrap().frame_num(), 42);
    assert_eq!(dst.frame_meta(frame).unwrap().num_obj_meta(), 2);
    assert_eq!(src.batch.num_frames_in_batch(), 1);
    assert_eq!(src.batch.frame_meta(src.frame).unwrap().frame_num(), 42);
}

#[test]
fn a_list_that_names_a_free_slot_is_not_copied() {
    let src = source();
    let mut dst = BatchMeta::create(4).unwrap();
    let mut stale = SlotList::new();
    stale.append(src.object);
    stale.append(3);
    assert!(!BatchMeta::copy_list(&src.batch, &stale, Kind::Object, &mut dst, NodeRef::batch()));
    let frame = dst.acquire_frame_meta_from_pool().unwrap();
    assert!(!BatchMeta::copy_list(
        &src.batch,
        &stale,
        Kind::Object,
        &mut dst,
        NodeRef::new(Kind::Frame, frame)
    ));
    assert_eq!(dst.obj_meta_pool().num_full_elements(), 0);
    let empty = SlotList::new();
    assert!(BatchMeta::copy_list(
        &src.batch,
        &empty,
        Kind::Object,
        &mut dst,
        NodeRef::new(Kind::Frame, frame)
    ));
    assert!(FrameMeta::obj_meta_list(&dst, frame).is_none());
}

#[test]
fn counting_the_records_below_a_record() {
    let src = source();
    let frame = NodeRef::new(Kind::Frame, src.frame);
    assert_eq!(src.batch.fits(frame, Kind::Object, 2), Some(0));
    assert_eq!(src.batch.fits(frame, Kind::Object, 5), Some(3));
    assert_eq!(src.batch.fits(frame, Kind::Object, 1), None);
    assert_eq!(src.batch.fits(frame, Kind::Frame, 1), Some(0));
    assert_eq!(src.batch.fits(frame, Kind::Frame, 0), None);
    assert_eq!(src.batch.fits_under(frame, Kind::Frame, 0), Some(0));
    assert_eq!(src.batch.fits(frame, Kind::Label, 1), Some(0));
    assert_eq!(src.batch.fits(frame, Kind::User, 10), Some(9));
    assert_eq!(src.batch.fits(NodeRef::batch(), Kind::Classifier, 4), Some(3));
}
