//! Display records: the primitives that an overlay draws on one frame.

use crate::base::BaseMeta;
use crate::meta_type::{BaseMetaType, MetaType};
use crate::osd::{
    duplicate_texts, duplicate_values, texts_view, ArrowParams, CircleParams, LineParams,
    RectParams, TextParams, TextParamsView, MAX_ELEMENTS_IN_DISPLAY_META,
};
use vstd::prelude::*;

verus! {

/// What a stage writes into a display record. No kind of primitive has more
/// than [`MAX_ELEMENTS_IN_DISPLAY_META`] entries.
#[derive(Debug)]
pub struct DisplayData {
    pub rect_params: Vec<RectParams>,
    pub text_params: Vec<TextParams>,
    pub line_params: Vec<LineParams>,
    pub arrow_params: Vec<ArrowParams>,
    pub circle_params: Vec<CircleParams>,
    pub misc_osd_data: [i64; 16],
}

/// What a [`DisplayData`] holds.
pub struct DisplayDataView {
    pub rect_params: Seq<RectParams>,
    pub text_params: Seq<TextParamsView>,
    pub line_params: Seq<LineParams>,
    pub arrow_params: Seq<ArrowParams>,
    pub circle_params: Seq<CircleParams>,
    pub misc_osd_data: Seq<i64>,
}

impl View for DisplayData {
    type V = DisplayDataView;

    open spec fn view(&self) -> DisplayDataView {
        DisplayDataView {
            rect_params: self.rect_params@,
            text_params: texts_view(self.text_params@),
            line_params: self.line_params@,
            arrow_params: self.arrow_params@,
            circle_params: self.circle_params@,
            misc_osd_data: self.misc_osd_data@,
        }
    }
}

impl DisplayDataView {
    /// Validity: no kind of primitive has more entries than a display
    /// record has room for.
    pub open spec fn wf(&self) -> bool {
        &&& self.rect_params.len() <= MAX_ELEMENTS_IN_DISPLAY_META
        &&& self.text_params.len() <= MAX_ELEMENTS_IN_DISPLAY_META
        &&& self.line_params.len() <= MAX_ELEMENTS_IN_DISPLAY_META
        &&& self.arrow_params.len() <= MAX_ELEMENTS_IN_DISPLAY_META
        &&& self.circle_params.len() <= MAX_ELEMENTS_IN_DISPLAY_META
        &&& self.misc_osd_data.len() == MAX_ELEMENTS_IN_DISPLAY_META
    }
}

impl DisplayData {
    /// The data of a fresh display record: no primitive, every
    /// miscellaneous value zero.
    pub open spec fn zero() -> DisplayDataView {
        DisplayDataView {
            rect_params: Seq::empty(),
            text_params: Seq::empty(),
            line_params: Seq::empty(),
            arrow_params: Seq::empty(),
            circle_params: Seq::empty(),
            misc_osd_data: Seq::new(MAX_ELEMENTS_IN_DISPLAY_META as nat, |i: int| 0i64),
        }
    }

    /// The data of a fresh display record.
    pub fn new() -> (r: DisplayData)
        ensures
            r@ == DisplayData::zero(),
            r@.wf(),
    {
        let r = DisplayData {
            rect_params: Vec::new(),
            text_params: Vec::new(),
            line_params: Vec::new(),
            arrow_params: Vec::new(),
            circle_params: Vec::new(),
            misc_osd_data: [0i64; 16],
        };
        assert(r@.misc_osd_data =~= DisplayData::zero().misc_osd_data);
        assert(r@.text_params =~= DisplayData::zero().text_params);
        r
    }

    /// Whether no kind of primitive has more entries than a display record
    /// has room for.
    pub fn is_valid(&self) -> (r: bool)
        ensures
            r == self@.wf(),
    {
        self.rect_params.len() <= MAX_ELEMENTS_IN_DISPLAY_META && self.text_params.len()
            <= MAX_ELEMENTS_IN_DISPLAY_META && self.line_params.len()
            <= MAX_ELEMENTS_IN_DISPLAY_META && self.arrow_params.len()
            <= MAX_ELEMENTS_IN_DISPLAY_META && self.circle_params.len()
            <= MAX_ELEMENTS_IN_DISPLAY_META
    }

    /// Data of its own that holds what this holds.
    pub fn duplicate(&self) -> (r: DisplayData)
        ensures
            r@ == self@,
    {
        DisplayData {
            rect_params: duplicate_values(&self.rect_params),
            text_params: duplicate_texts(&self.text_params),
            line_params: duplicate_values(&self.line_params),
            arrow_params: duplicate_values(&self.arrow_params),
            circle_params: duplicate_values(&self.circle_params),
            misc_osd_data: self.misc_osd_data,
        }
    }
}

/// The primitives that an overlay draws on one frame.
#[derive(Debug)]
pub struct DisplayMeta {
    pub base_meta: BaseMeta,
    pub data: DisplayData,
}

/// What a [`DisplayMeta`] holds.
pub struct DisplayMetaView {
    pub base_meta: BaseMeta,
    pub data: DisplayDataView,
}

impl View for DisplayMeta {
    type V = DisplayMetaView;

    open spec fn view(&self) -> DisplayMetaView {
        DisplayMetaView { base_meta: self.base_meta, data: self.data@ }
    }
}

impl DisplayMeta {
    /// The fresh display record.
    pub open spec fn fresh() -> DisplayMetaView {
        DisplayMetaView {
            base_meta: BaseMeta::fresh(MetaType::Base(BaseMetaType::DisplayMeta)),
            data: DisplayData::zero(),
        }
    }

    /// Validity of a display record: that of its data.
    pub open spec fn wf(&self) -> bool {
        self.data@.wf()
    }

    /// The fresh display record.
    pub fn new() -> (r: DisplayMeta)
        ensures
            r@ == DisplayMeta::fresh(),
            r.wf(),
    {
        DisplayMeta {
            base_meta: BaseMeta::new(MetaType::Base(BaseMetaType::DisplayMeta)),
            data: DisplayData::new(),
        }
    }

    pub fn base_meta(&self) -> (r: &BaseMeta)
        ensures
            *r == self.base_meta,
    {
        &self.base_meta
    }

    /// Everything that a stage writes into the record.
    pub fn data(&self) -> (r: &DisplayData)
        ensures
            *r == self.data,
    {
        &self.data
    }

    /// The number of rectangles.
    pub fn num_rects(&self) -> (r: u32)
        requires
            self.wf(),
        ensures
            r == self.data.rect_params@.len(),
            r <= MAX_ELEMENTS_IN_DISPLAY_META,
    {
        self.data.rect_params.len() as u32
    }

    /// The number of texts.
    pub fn num_labels(&self) -> (r: u32)
        requires
            self.wf(),
        ensures
            r == self.data.text_params@.len(),
            r <= MAX_ELEMENTS_IN_DISPLAY_META,
    {
        self.data.text_params.len() as u32
    }

    /// The number of lines.
    pub fn num_lines(&self) -> (r: u32)
        requires
            self.wf(),
        ensures
            r == self.data.line_params@.len(),
            r <= MAX_ELEMENTS_IN_DISPLAY_META,
    {
        self.data.line_params.len() as u32
    }

    /// The number of arrows.
    pub fn num_arrows(&self) -> (r: u32)
        requires
            self.wf(),
        ensures
            r == self.data.arrow_params@.len(),
            r <= MAX_ELEMENTS_IN_DISPLAY_META,
    {
        self.data.arrow_params.len() as u32
    }

    /// The number of circles.
    pub fn num_circles(&self) -> (r: u32)
        requires
            self.wf(),
        ensures
            r == self.data.circle_params@.len(),
            r <= MAX_ELEMENTS_IN_DISPLAY_META,
    {
        self.data.circle_params.len() as u32
    }

    pub fn rect_params(&self) -> (r: &[RectParams])
        ensures
            r@ == self.data.rect_params@,
    {
        self.data.rect_params.as_slice()
    }

    pub fn text_params(&self) -> (r: &[TextParams])
        ensures
            r@ == self.data.text_params@,
    {
        self.data.text_params.as_slice()
    }

    pub fn line_params(&self) -> (r: &[LineParams])
        ensures
            r@ == self.data.line_params@,
    {
        self.data.line_params.as_slice()
    }

    pub fn arrow_params(&self) -> (r: &[ArrowParams])
        ensures
            r@ == self.data.arrow_params@,
    {
        self.data.arrow_params.as_slice()
    }

    pub fn circle_params(&self) -> (r: &[CircleParams])
        ensures
            r@ == self.data.circle_params@,
    {
        self.data.circle_params.as_slice()
    }

    pub fn misc_osd_data(&self) -> (r: &[i64; 16])
        ensures
            *r == self.data.misc_osd_data,
    {
        &self.data.misc_osd_data
    }
}

} // verus!
