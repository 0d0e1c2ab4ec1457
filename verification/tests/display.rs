use nvds::acquire::AcquireError;
use nvds::base::BaseMeta;
use nvds::batch::BatchMeta;
use nvds::display::{DisplayData, DisplayMeta};
use nvds::display_builder::DisplayMetaBuilder;
use nvds::frame::FrameMeta;
use nvds::kind::{Kind, NodeRef};
use nvds::record::Record;
use nvds::meta_type::{BaseMetaType, MetaType};
use nvds::osd::{
    zero_color, ArrowParams, CircleParams, FaceBoxes, LineParams, RectParams, TextParams,
    MAX_ELEMENTS_IN_DISPLAY_META,
};

fn rect(border_width: u32) -> RectParams {
    let mut r = RectParams::new();
    r.border_width = border_width;
    r
}

fn text(s: &str) -> TextParams {
    let mut t = TextParams::new();
    t.display_text = String::from(s);
    t
}

#[test]
fn builder_fills_a_display_record() {
    let mut batch = BatchMeta::create(2).unwrap();
    let line = LineParams { x1: 1, y1: 2, x2: 3, y2: 4, line_width: 5, line_color: zero_color() };
    let arrow =
        ArrowParams { x1: 1, y1: 1, x2: 9, y2: 9, arrow_width: 2, arrow_color: zero_color() };
    let circle = CircleParams {
        xc: 10,
        yc: 20,
        radius: 30,
        circle_color: zero_color(),
        has_bg_color: false,
        bg_color: zero_color(),
    };
    let slot = DisplayMetaBuilder::new()
        .rect_params(vec![rect(1), rect(2)])
        .text_params(vec![text("a"), text("b"), text("c")])
        .line_params(vec![line])
        .arrow_params(vec![arrow])
        .circle_params(vec![circle, circle, circle, circle])
        .misc_osd_data(vec![7, 8, 9])
        .build(&mut batch)
        .unwrap();
    let d = batch.display_meta(slot).unwrap();
    assert_eq!(d.num_rects(), 2);
    assert_eq!(d.num_labels(), 3);
    assert_eq!(d.num_lines(), 1);
    assert_eq!(d.num_arrows(), 1);
    assert_eq!(d.num_circles(), 4);
    assert_eq!(d.rect_params()[1].border_width, 2);
    assert_eq!(d.text_params()[2].display_text, "c");
    assert_eq!(d.line_params()[0].line_width, 5);
    assert_eq!(d.arrow_params()[0].x2, 9);
    assert_eq!(d.circle_params()[3].radius, 30);
    assert_eq!(d.misc_osd_data(), &[7, 8, 9, 0, 0, 0, 0, 0, 0, 0, 0, 0, 0, 0, 0, 0]);
    assert_eq!(d.base_meta().meta_type(), MetaType::Base(BaseMetaType::DisplayMeta));
    assert_eq!(batch.owner_of(NodeRef::new(Kind::Display, slot)), None);
    let frame = batch.acquire_frame_meta_from_pool().unwrap();
    assert!(FrameMeta::add_display_meta(&mut batch, frame, slot));
}

#[test]
fn builder_keeps_no_more_than_a_record_has_room_for() {
    let mut batch = BatchMeta::create(1).unwrap();
    let rects: Vec<RectParams> = (0..20).map(rect).collect();
    let misc: Vec<i64> = (1..=20).collect();
    let slot = DisplayMetaBuilder::new()
        .rect_params(rects)
        .misc_osd_data(misc)
        .build(&mut batch)
        .unwrap();
    let d = batch.display_meta(slot).unwrap();
    assert_eq!(MAX_ELEMENTS_IN_DISPLAY_META, 16);
    assert_eq!(d.num_rects(), 16);
    assert_eq!(d.rect_params()[15].border_width, 15);
    assert_eq!(d.num_labels(), 0);
    assert_eq!(d.num_circles(), 0);
    assert_eq!(d.misc_osd_data(), &[1, 2, 3, 4, 5, 6, 7, 8, 9, 10, 11, 12, 13, 14, 15, 16]);
}

#[test]
fn builder_gives_nothing_when_the_pool_is_exhausted() {
    let mut batch = BatchMeta::create(1).unwrap();
    assert!(DisplayMetaBuilder::new().build(&mut batch).is_some());
    assert!(DisplayMetaBuilder::new().rect_params(vec![rect(1)]).build(&mut batch).is_none());
    assert_eq!(batch.display_meta_pool().num_full_elements(), 1);
    assert_eq!(batch.display_meta(0).unwrap().num_rects(), 0);
}

#[test]
fn display_data_with_too_many_primitives_is_refused() {
    let mut batch = BatchMeta::create(1).unwrap();
    let slot = batch.acquire_display_meta_from_pool().unwrap();
    let mut data = DisplayData::new();
    data.rect_params = (0..17).map(rect).collect();
    assert!(!data.is_valid());
    assert!(!batch.set_display_data(slot, data));
    assert_eq!(batch.display_meta(slot).unwrap().num_rects(), 0);
    let mut data = DisplayData::new();
    data.rect_params = (0..16).map(rect).collect();
    assert!(batch.set_display_data(slot, data));
    assert_eq!(batch.display_meta(slot).unwrap().num_rects(), 16);
    assert!(!batch.set_display_data(5, DisplayData::new()));
}

#[test]
fn face_boxes_keep_their_numbers() {
    let b = FaceBoxes::new(
        1.5f32.to_bits(),
        2.5f32.to_bits(),
        3.0f32.to_bits(),
        4.0f32.to_bits(),
    );
    assert_eq!(f32::from_bits(b.x_bits()), 1.5);
    assert_eq!(f32::from_bits(b.y_bits()), 2.5);
    assert_eq!(f32::from_bits(b.width_bits()), 3.0);
    assert_eq!(f32::from_bits(b.height_bits()), 4.0);
}

#[test]
fn a_record_that_is_not_valid_takes_no_slot() {
    let mut batch = BatchMeta::create(1).unwrap();
    let mut data = DisplayData::new();
    data.circle_params = Vec::new();
    data.rect_params = (0..17).map(rect).collect();
    let base_meta = BaseMeta::new(MetaType::Base(BaseMetaType::DisplayMeta));
    let record = Record::Display(DisplayMeta { base_meta, data });
    assert_eq!(batch.acquire_with(record), Err(AcquireError::InvalidRecord));
    assert_eq!(batch.display_meta_pool().num_full_elements(), 0);
    assert_eq!(
        batch.acquire_with(Record::Batch(BaseMeta::new_batch())),
        Err(AcquireError::NoSuchPool)
    );
    let good = Record::Display(DisplayMeta { base_meta, data: DisplayData::new() });
    assert_eq!(batch.acquire_with(good), Ok(0));
    let more = Record::Display(DisplayMeta { base_meta, data: DisplayData::new() });
    assert_eq!(batch.acquire_with(more), Err(AcquireError::PoolExhausted));
}
