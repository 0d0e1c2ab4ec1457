use nvds::acquire::AcquireError;
use nvds::batch::BatchMeta;
use nvds::kind::{Kind, NodeRef};

#[test]
fn frame_pool_hands_out_its_capacity_and_no_more() {
    let mut batch = BatchMeta::create(4).unwrap();
    let mut slots = Vec::new();
    for _ in 0..4 {
        slots.push(batch.acquire(Kind::Frame).unwrap());
    }
    assert_eq!(slots, vec![0, 1, 2, 3]);
    assert_eq!(batch.acquire(Kind::Frame), Err(AcquireError::PoolExhausted));
    assert!(batch.release(NodeRef::new(Kind::Frame, 2)));
    assert_eq!(batch.acquire(Kind::Frame), Ok(2));
    assert_eq!(batch.acquire(Kind::Frame), Err(AcquireError::PoolExhausted));
}

#[test]
fn releasing_twice_changes_nothing_the_second_time() {
    let mut batch = BatchMeta::create(2).unwrap();
    let user = batch.acquire(Kind::User).unwrap();
    assert!(batch.release(NodeRef::new(Kind::User, user)));
    assert!(!batch.release(NodeRef::new(Kind::User, user)));
    assert!(!batch.is_live(NodeRef::new(Kind::User, user)));
}

#[test]
fn clearing_a_list_releases_everything_below() {
    let mut batch = BatchMeta::create(4).unwrap();
    let frame = NodeRef::new(Kind::Frame, batch.acquire(Kind::Frame).unwrap());
    let object = NodeRef::new(Kind::Object, batch.acquire(Kind::Object).unwrap());
    let classifier = NodeRef::new(Kind::Classifier, batch.acquire(Kind::Classifier).unwrap());
    let label = NodeRef::new(Kind::Label, batch.acquire(Kind::Label).unwrap());
    assert!(batch.link(NodeRef::batch(), frame));
    assert!(batch.link(frame, object));
    assert!(batch.link(object, classifier));
    assert!(batch.link(classifier, label));
    assert!(!batch.link(frame, object));
    assert!(!batch.release(object));
    assert!(batch.clear_meta_list(frame, Kind::Object));
    assert!(batch.is_live(frame));
    assert!(!batch.is_live(object));
    assert!(!batch.is_live(classifier));
    assert!(!batch.is_live(label));
}

#[test]
fn an_exhausted_pool_is_told_apart_from_a_kind_without_a_pool() {
    let mut batch = BatchMeta::create(1).unwrap();
    assert_eq!(batch.acquire(Kind::Batch), Err(AcquireError::NoSuchPool));
    assert_eq!(batch.acquire(Kind::Label), Ok(0));
    assert_eq!(batch.acquire(Kind::Label), Err(AcquireError::PoolExhausted));
    assert_eq!(batch.acquire(Kind::Object), Ok(0));
}
