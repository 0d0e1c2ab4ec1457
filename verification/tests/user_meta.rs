use nvds::batch::BatchMeta;
use nvds::kind::{Kind, NodeRef};
use nvds::meta_type::{BaseMetaType, MetaType, START_USER_META};
use nvds::osd::RectParams;
use nvds::preprocess::{PreProcessBatchMeta, PreProcessTensorMeta, RoiMeta};
use nvds::user::{UserMeta, UserPayload};
use nvds::user_types::UserMetaTypes;

fn tensor_payload() -> PreProcessBatchMeta {
    let mut first = RectParams::new();
    first.width_bits = 224.0f32.to_bits();
    first.height_bits = 224.0f32.to_bits();
    let mut second = RectParams::new();
    second.left_bits = 100.0f32.to_bits();
    let mut roi = RoiMeta::new(first, 0);
    roi.scale_ratio_x_bits = 0.5f64.to_bits();
    roi.scale_ratio_y_bits = 0.25f64.to_bits();
    roi.offset_left_bits = 8.0f64.to_bits();
    roi.offset_top_bits = 16.0f64.to_bits();
    roi.roi_polygon[1] = (5, 6);
    PreProcessBatchMeta {
        tensor_meta: PreProcessTensorMeta {
            meta_id: 7,
            gpu_id: 1,
            buffer_size: 602112,
            tensor_name: Some(String::from("input_1")),
            tensor_shape: vec![1, 3, 224, 224],
        },
        roi_vector: vec![roi, RoiMeta::new(second, 1)],
        target_unique_ids: vec![1, 5],
    }
}

#[test]
fn tensor_payload_is_read_back_through_its_tag() {
    let mut batch = BatchMeta::create(4).unwrap();
    let slot = UserMeta::new(
        &mut batch,
        MetaType::Base(BaseMetaType::PreprocessBatchMeta),
        UserPayload::PreProcessBatch(tensor_payload()),
    )
    .unwrap();
    assert!(batch.add_user_meta(slot));

    let listed = batch.batch_user_meta_list().to_vec();
    assert_eq!(listed, vec![slot]);
    let user = batch.user_meta(listed[0]).unwrap();
    assert!(user.base_meta().has_copy_func());
    assert!(user.base_meta().has_release_func());
    let meta = user.preprocess_batch_meta().unwrap();
    assert_eq!(meta.tensor_meta().tensor_shape(), &[1, 3, 224, 224]);
    assert_eq!(meta.tensor_meta().meta_id(), 7);
    assert_eq!(meta.tensor_meta().gpu_id(), 1);
    assert_eq!(meta.tensor_meta().buffer_size(), 602112);
    assert_eq!(meta.tensor_meta().tensor_name().unwrap(), "input_1");
    assert_eq!(meta.roi_vector().len(), 2);
    assert_eq!(meta.target_unique_ids(), &[1, 5]);
    let roi = &meta.roi_vector()[0];
    assert_eq!(f32::from_bits(roi.roi().width_bits), 224.0);
    assert_eq!(roi.frame_meta(), 0);
    assert_eq!(meta.roi_vector()[1].frame_meta(), 1);
}

#[test]
fn region_keeps_its_offsets_apart_from_its_scale() {
    let payload = tensor_payload();
    let roi = &payload.roi_vector[0];
    assert_eq!(f64::from_bits(roi.scale_ratio_x_bits()), 0.5);
    assert_eq!(f64::from_bits(roi.scale_ratio_y_bits()), 0.25);
    assert_eq!(f64::from_bits(roi.offset_left_bits()), 8.0);
    assert_eq!(f64::from_bits(roi.offset_top_bits()), 16.0);
    assert_ne!(roi.offset_top_bits(), roi.scale_ratio_y_bits());
    assert_eq!(roi.roi_polygon(0), Some((0, 0)));
    assert_eq!(roi.roi_polygon(1), Some((5, 6)));
    assert_eq!(roi.roi_polygon(7), Some((0, 0)));
    assert_eq!(roi.roi_polygon(8), None);
}

#[test]
fn region_lists_name_records_without_owning_them() {
    let mut roi = RoiMeta::new(RectParams::new(), 0);
    assert!(roi.classifier_meta_list().is_none());
    assert!(roi.roi_user_meta_list().is_none());
    roi.add_classifier_meta(4);
    roi.add_classifier_meta(2);
    roi.add_user_meta(1);
    assert_eq!(roi.classifier_meta_list().unwrap().to_vec(), vec![4, 2]);
    assert_eq!(roi.roi_user_meta_list().unwrap().to_vec(), vec![1]);
    roi.remove_classifier_meta(4);
    roi.remove_classifier_meta(9);
    roi.remove_user_meta(1);
    assert_eq!(roi.classifier_meta_list().unwrap().to_vec(), vec![2]);
    assert!(roi.roi_user_meta_list().is_none());
    let copy = roi.duplicate();
    assert_eq!(copy.classifier_meta_list().unwrap().to_vec(), vec![2]);
}

#[test]
fn payload_of_another_kind_is_not_handed_out_as_tensor() {
    let mut batch = BatchMeta::create(4).unwrap();
    let wrong_tag = UserMeta::new(
        &mut batch,
        MetaType::User(9000),
        UserPayload::PreProcessBatch(tensor_payload()),
    )
    .unwrap();
    let wrong_payload = UserMeta::new(
        &mut batch,
        MetaType::Base(BaseMetaType::PreprocessBatchMeta),
        UserPayload::Custom(vec![1]),
    )
    .unwrap();
    let empty = batch.acquire_user_meta_from_pool().unwrap();
    assert!(batch.user_meta(wrong_tag).unwrap().preprocess_batch_meta().is_none());
    assert!(batch.user_meta(wrong_tag).unwrap().user_meta_data().is_some());
    assert!(batch.user_meta(wrong_payload).unwrap().preprocess_batch_meta().is_none());
    assert!(batch.user_meta(empty).unwrap().preprocess_batch_meta().is_none());
    assert!(batch.user_meta(empty).unwrap().user_meta_data().is_none());
    assert!(!batch.user_meta(empty).unwrap().base_meta().has_copy_func());
    assert_eq!(
        batch.user_meta(empty).unwrap().base_meta().meta_type(),
        MetaType::Base(BaseMetaType::UserMeta)
    );
}

#[test]
fn attaching_fails_without_a_free_user_record() {
    let mut batch = BatchMeta::create(1).unwrap();
    let tag = MetaType::User(9000);
    assert!(UserMeta::new(&mut batch, tag, UserPayload::Custom(vec![1])).is_some());
    assert!(UserMeta::new(&mut batch, tag, UserPayload::Custom(vec![2])).is_none());
    assert_eq!(batch.user_meta_pool().num_full_elements(), 1);
}

#[test]
fn copied_payload_outlives_the_release_of_its_source() {
    let mut src = BatchMeta::create(2).unwrap();
    let slot = UserMeta::new(
        &mut src,
        MetaType::Base(BaseMetaType::PreprocessBatchMeta),
        UserPayload::PreProcessBatch(tensor_payload()),
    )
    .unwrap();
    assert!(src.add_user_meta(slot));

    let mut dst = BatchMeta::create(2).unwrap();
    assert!(src.batch_user_meta_list().copy_to_batch_meta(&src, &mut dst));
    assert!(src.clear_user_meta_list());
    assert!(src.user_meta(slot).is_none());
    assert_eq!(src.user_meta_pool().num_full_elements(), 0);

    let copied = dst.batch_user_meta_list().to_vec();
    assert_eq!(copied.len(), 1);
    let meta = dst.user_meta(copied[0]).unwrap().preprocess_batch_meta().unwrap();
    assert_eq!(meta.tensor_meta().tensor_shape(), &[1, 3, 224, 224]);
    assert_eq!(meta.tensor_meta().tensor_name().unwrap(), "input_1");
    assert_eq!(meta.roi_vector().len(), 2);
    assert_eq!(meta.roi_vector()[0].roi_polygon(1), Some((5, 6)));
    assert_eq!(meta.target_unique_ids(), &[1, 5]);
}

#[test]
fn releasing_a_user_record_twice_is_a_no_op_the_second_time() {
    let mut batch = BatchMeta::create(2).unwrap();
    let slot =
        UserMeta::new(&mut batch, MetaType::User(9000), UserPayload::Custom(vec![9])).unwrap();
    let user = NodeRef::new(Kind::User, slot);
    assert!(batch.release(user));
    assert!(batch.user_meta(slot).is_none());
    let free = batch.user_meta_pool().empty_list().unwrap().to_vec();
    assert!(!batch.release(user));
    assert_eq!(batch.user_meta_pool().empty_list().unwrap().to_vec(), free);
    assert_eq!(batch.user_meta_pool().num_empty_elements(), 2);
    let again = batch.acquire_user_meta_from_pool().unwrap();
    assert_eq!(again, slot);
    assert!(batch.user_meta(again).unwrap().user_meta_data().is_none());
}

#[test]
fn names_get_tags_of_their_own_above_the_built_in_kinds() {
    let mut types = UserMetaTypes::new();
    let custom = UserMeta::user_custom_meta_type(&mut types);
    let dummy = UserMeta::dummy_bbox_meta_type(&mut types);
    let mine = UserMeta::get_user_meta_type(&mut types, "MY.META");
    assert_eq!(custom, MetaType::User(START_USER_META + 1));
    assert_eq!(dummy, MetaType::User(START_USER_META + 2));
    assert_eq!(mine, MetaType::User(8196));
    assert_eq!(UserMeta::user_custom_meta_type(&mut types), custom);
    assert_eq!(UserMeta::get_user_meta_type(&mut types, "MY.META"), mine);
    assert_eq!(types.get_user_meta_type("NVIDIA.DUMMY.BBOX.META"), dummy);
    assert_eq!(types.len(), 3);
}
