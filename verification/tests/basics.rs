use nvds::audio::{AudioFormat, AudioFrameMeta, AudioLayout, AudioParams};
use nvds::base::BaseMeta;
use nvds::kind::{Kind, NodeRef};
use nvds::list::{MetaList, SlotList};
use nvds::meta_type::{BaseMetaType, MetaType, START_USER_META};
use nvds::pool::{Meta, MetaPool};
use nvds::preprocess::{PreProcessBatchMeta, PreProcessTensorMeta};

#[test]
fn numeric_tags_of_the_built_in_kinds() {
    assert_eq!(MetaType::Base(BaseMetaType::InvalidMeta).to_native_meta_type(), -1);
    assert_eq!(MetaType::Base(BaseMetaType::BatchMeta).to_native_meta_type(), 1);
    assert_eq!(MetaType::Base(BaseMetaType::UserMeta).to_native_meta_type(), 7);
    assert_eq!(MetaType::Base(BaseMetaType::PreprocessBatchMeta).to_native_meta_type(), 19);
    assert_eq!(MetaType::Base(BaseMetaType::CustomMsgBlob).to_native_meta_type(), 20);
    assert_eq!(MetaType::Base(BaseMetaType::ReservedMeta).to_native_meta_type(), 4095);
    assert_eq!(MetaType::Base(BaseMetaType::GstCustomMeta).to_native_meta_type(), 4096);
    assert_eq!(MetaType::Base(BaseMetaType::StartUserMeta).to_native_meta_type(), 8193);
    assert_eq!(MetaType::User(9001).to_native_meta_type(), 9001);
    assert_eq!(START_USER_META, 8193);
}

#[test]
fn kinds_from_numeric_tags() {
    assert_eq!(MetaType::from(2), MetaType::Base(BaseMetaType::FrameMeta));
    assert_eq!(MetaType::from(19), MetaType::Base(BaseMetaType::PreprocessBatchMeta));
    assert_eq!(MetaType::from(-1), MetaType::Base(BaseMetaType::InvalidMeta));
    assert_eq!(MetaType::from(4096), MetaType::Base(BaseMetaType::GstCustomMeta));
    assert_eq!(MetaType::from(8192), MetaType::Base(BaseMetaType::InvalidMeta));
    assert_eq!(MetaType::from(0), MetaType::Base(BaseMetaType::InvalidMeta));
    assert_eq!(MetaType::from(21), MetaType::Base(BaseMetaType::InvalidMeta));
    assert_eq!(MetaType::from(8193), MetaType::User(8193));
    assert_eq!(MetaType::from(i32::MAX), MetaType::User(i32::MAX));
    assert_eq!(BaseMetaType::from_native(8193), Some(BaseMetaType::StartUserMeta));
    assert_eq!(BaseMetaType::from_native(4094), None);
}

#[test]
fn tags_round_trip_through_their_numbers() {
    for t in [
        BaseMetaType::InvalidMeta,
        BaseMetaType::BatchMeta,
        BaseMetaType::FrameMeta,
        BaseMetaType::ObjMeta,
        BaseMetaType::DisplayMeta,
        BaseMetaType::ClassifierMeta,
        BaseMetaType::LabelInfoMeta,
        BaseMetaType::UserMeta,
        BaseMetaType::PayloadMeta,
        BaseMetaType::EventMsgMeta,
        BaseMetaType::OpticalFlowMeta,
        BaseMetaType::LatencyMeasurementMeta,
        BaseMetaType::TensorOutputMeta,
        BaseMetaType::InferSegmentationMeta,
        BaseMetaType::CropImageDataMeta,
        BaseMetaType::TrackerPastFrameMeta,
        BaseMetaType::AudioBatchMeta,
        BaseMetaType::AudioFrameMeta,
        BaseMetaType::PreprocessFrameMeta,
        BaseMetaType::PreprocessBatchMeta,
        BaseMetaType::CustomMsgBlob,
        BaseMetaType::ReservedMeta,
        BaseMetaType::GstCustomMeta,
    ] {
        assert_eq!(MetaType::from(MetaType::Base(t).to_native_meta_type()), MetaType::Base(t));
        assert_eq!(BaseMetaType::from_native(t.to_native()), Some(t));
    }
    assert_eq!(MetaType::from(MetaType::User(12345).to_native_meta_type()), MetaType::User(12345));
}

#[test]
fn kinds_of_node_and_what_they_hold() {
    assert!(Kind::Batch.can_hold(Kind::Frame));
    assert!(Kind::Batch.can_hold(Kind::User));
    assert!(Kind::Frame.can_hold(Kind::Object));
    assert!(Kind::Frame.can_hold(Kind::Display));
    assert!(Kind::Frame.can_hold(Kind::User));
    assert!(Kind::Object.can_hold(Kind::Classifier));
    assert!(Kind::Object.can_hold(Kind::User));
    assert!(Kind::Classifier.can_hold(Kind::Label));
    assert!(!Kind::Batch.can_hold(Kind::Object));
    assert!(!Kind::Object.can_hold(Kind::Object));
    assert!(!Kind::Label.can_hold(Kind::Label));
    assert!(!Kind::User.can_hold(Kind::Frame));
    assert!(!Kind::Classifier.can_hold(Kind::User));
    assert_eq!(Kind::Batch.level(), 4);
    assert_eq!(Kind::Frame.level(), 3);
    assert_eq!(Kind::Object.level(), 2);
    assert_eq!(Kind::Classifier.level(), 1);
    assert_eq!(Kind::Label.level(), 0);
    assert_eq!(Kind::Display.base_meta_type(), MetaType::Base(BaseMetaType::DisplayMeta));
    assert_eq!(NodeRef::batch(), NodeRef::new(Kind::Batch, 0));
}

#[test]
fn slot_list_keeps_order_and_removes_the_first_match() {
    let mut list = SlotList::new();
    assert!(list.is_empty());
    assert_eq!(list.pop(), None);
    list.append(5);
    list.append(3);
    list.append(5);
    list.append(8);
    assert_eq!(list.len(), 4);
    assert_eq!(list.position(5), Some(0));
    assert_eq!(list.position(8), Some(3));
    assert_eq!(list.position(9), None);
    assert!(list.contains(3));
    assert!(!list.remove(9));
    assert!(list.remove(5));
    assert_eq!(list.to_vec(), vec![3, 5, 8]);
    assert_eq!(list.get(1), Some(5));
    assert_eq!(list.get(3), None);
    assert_eq!(list.pop(), Some(8));
    assert_eq!(list.duplicate().to_vec(), vec![3, 5]);
    list.clear();
    assert!(list.is_empty());
}

#[test]
fn a_walk_over_a_list_is_finite_and_can_be_started_again() {
    let mut slots = SlotList::new();
    slots.append(4);
    slots.append(1);
    let list: MetaList<Meta> = MetaList::new(&slots);
    let mut walk = list.iter();
    assert_eq!(walk.next(), Some(4));
    assert_eq!(walk.next(), Some(1));
    assert_eq!(walk.next(), None);
    assert_eq!(walk.next(), None);
    let mut again = list.iter();
    assert_eq!(again.next(), Some(4));
    assert_eq!(list.len(), 2);
    assert_eq!(list.get(1), Some(1));
    assert!(list.contains(4));
    assert!(!list.contains(0));
    assert_eq!(list.slots().to_vec(), vec![4, 1]);
}

#[test]
fn a_pool_hands_out_its_slots_from_zero_and_takes_them_back() {
    let mut pool = MetaPool::new(MetaType::Base(BaseMetaType::ObjMeta), 3, 64);
    assert_eq!(pool.element_size(), 64);
    assert_eq!(pool.meta_type(), MetaType::Base(BaseMetaType::ObjMeta));
    assert_eq!(pool.acquire(), Some(0));
    assert_eq!(pool.acquire(), Some(1));
    assert!(pool.is_used(1));
    assert!(!pool.is_used(2));
    assert!(!pool.is_used(3));
    assert_eq!(pool.full_list().unwrap().to_vec(), vec![0, 1]);
    assert!(pool.release(0));
    assert!(!pool.release(0));
    assert!(!pool.release(7));
    assert_eq!(pool.full_list().unwrap().to_vec(), vec![1]);
    assert_eq!(pool.empty_list().unwrap().to_vec(), vec![2, 0]);
    assert_eq!(pool.acquire(), Some(0));
    assert_eq!(pool.acquire(), Some(2));
    assert_eq!(pool.acquire(), None);
    assert!(pool.empty_list().is_none());
    assert_eq!(pool.num_empty_elements(), 0);
    assert_eq!(pool.num_full_elements(), 3);
    assert_eq!(pool.max_elements_in_pool(), 3);
}

#[test]
fn headers_of_records_and_of_a_batch() {
    let record = BaseMeta::new(MetaType::Base(BaseMetaType::ObjMeta));
    assert!(record.batch_meta());
    assert_eq!(record.user_context(), 0);
    assert!(!record.has_copy_func());
    assert!(!record.has_release_func());
    let batch = BaseMeta::new_batch();
    assert!(!batch.batch_meta());
    assert_eq!(batch.meta_type(), MetaType::Base(BaseMetaType::BatchMeta));
}

#[test]
fn default_tensor_description_is_empty() {
    let t = PreProcessTensorMeta::default();
    assert_eq!(t.meta_id(), 0);
    assert_eq!(t.gpu_id(), 0);
    assert_eq!(t.buffer_size(), 0);
    assert!(t.tensor_name().is_none());
    assert!(t.tensor_shape().is_empty());
    let b = PreProcessBatchMeta::default();
    assert!(b.roi_vector().is_empty());
    assert!(b.target_unique_ids().is_empty());
    assert_eq!(b.tensor_meta().meta_id(), 0);
    let copy = b.duplicate();
    assert!(copy.roi_vector().is_empty());
}

#[test]
fn audio_records_keep_their_fields() {
    let p = AudioParams {
        layout: AudioLayout::Interleaved,
        format: AudioFormat::S16LE,
        bpf: 4,
        channels: 2,
        rate: 48000,
        data_size: 8,
        data: vec![1, 2, 3, 4, 5, 6, 7, 8],
        pad_id: 1,
        source_id: 2,
        ntp_timestamp: 3,
        buf_pts: 4,
        duration: 5,
    };
    assert_eq!(p.layout(), AudioLayout::Interleaved);
    assert_eq!(p.format(), AudioFormat::S16LE);
    assert_eq!(p.bpf(), 4);
    assert_eq!(p.channels(), 2);
    assert_eq!(p.rate(), 48000);
    assert_eq!(p.data_size(), 8);
    assert_eq!(p.data(), &[1, 2, 3, 4, 5, 6, 7, 8]);
    assert_eq!(p.pad_id(), 1);
    assert_eq!(p.source_id(), 2);
    assert_eq!(p.ntp_timestamp(), 3);
    assert_eq!(p.buf_pts(), 4);
    assert_eq!(p.duration(), 5);
    let mut frame =
        AudioFrameMeta { base_meta: BaseMeta::new(MetaType::Base(BaseMetaType::AudioFrameMeta)) };
    frame.base_meta_mut().user_context = 11;
    assert_eq!(frame.base_meta().user_context(), 11);
    assert_eq!(frame.base_meta().meta_type(), MetaType::Base(BaseMetaType::AudioFrameMeta));
}
