use nvds::batch::BatchMeta;
use nvds::buffer::{Buffer, BufferExt};

#[test]
fn a_buffer_hands_out_the_batch_that_it_is_tagged_with() {
    let mut buffer = Buffer::new(vec![1, 2, 3]);
    assert!(buffer.get_nvds_batch_meta().is_none());
    assert!(buffer.attach(BatchMeta::create(2).unwrap()).is_none());
    {
        let batch = buffer.get_nvds_batch_meta().unwrap();
        let frame = batch.acquire_frame_meta_from_pool().unwrap();
        assert!(batch.add_frame_meta(frame));
    }
    assert_eq!(buffer.get_nvds_batch_meta().unwrap().num_frames_in_batch(), 1);
    assert_eq!(buffer.data, vec![1, 2, 3]);
    let replaced = buffer.attach(BatchMeta::create(5).unwrap()).unwrap();
    assert_eq!(replaced.num_frames_in_batch(), 1);
    assert_eq!(buffer.get_nvds_batch_meta().unwrap().max_frames_in_batch(), 5);
    let taken = buffer.detach().unwrap();
    assert_eq!(taken.max_frames_in_batch(), 5);
    assert!(buffer.get_nvds_batch_meta().is_none());
    assert!(buffer.detach().is_none());
}
