//! Drawable primitives of the on-screen display, and the geometry types that
//! records share.
//!
//! Where the pipeline keeps a fraction (a coordinate, a colour channel), the
//! field holds the bit pattern of that number, so that a copy keeps it
//! exactly. Such fields end in `_bits`.

use vstd::prelude::*;

verus! {

/// Largest number of primitives of one kind in a display record, and the
/// number of miscellaneous values that it carries.
pub const MAX_ELEMENTS_IN_DISPLAY_META: usize = 16;

/// Number of corner points of a region's polygon.
pub const ROI_POLYGON_POINTS: usize = 8;

/// A colour: the bit patterns of its four channels.
#[derive(Clone, Copy, PartialEq, Eq, Debug, Structural)]
pub struct ColorParams {
    pub red_bits: u64,
    pub green_bits: u64,
    pub blue_bits: u64,
    pub alpha_bits: u64,
}

/// A rectangle with its border.
#[derive(Clone, Copy, PartialEq, Eq, Debug, Structural)]
pub struct RectParams {
    pub left_bits: u32,
    pub top_bits: u32,
    pub width_bits: u32,
    pub height_bits: u32,
    pub border_width: u32,
    pub border_color: ColorParams,
    pub has_bg_color: bool,
    pub bg_color: ColorParams,
}

/// A line segment.
#[derive(Clone, Copy, PartialEq, Eq, Debug, Structural)]
pub struct LineParams {
    pub x1: u32,
    pub y1: u32,
    pub x2: u32,
    pub y2: u32,
    pub line_width: u32,
    pub line_color: ColorParams,
}

/// An arrow from its first point to its second.
#[derive(Clone, Copy, PartialEq, Eq, Debug, Structural)]
pub struct ArrowParams {
    pub x1: u32,
    pub y1: u32,
    pub x2: u32,
    pub y2: u32,
    pub arrow_width: u32,
    pub arrow_color: ColorParams,
}

/// A circle.
#[derive(Clone, Copy, PartialEq, Eq, Debug, Structural)]
pub struct CircleParams {
    pub xc: u32,
    pub yc: u32,
    pub radius: u32,
    pub circle_color: ColorParams,
    pub has_bg_color: bool,
    pub bg_color: ColorParams,
}

/// The box of a detection as a detector or tracker reported it.
#[derive(Clone, Copy, PartialEq, Eq, Debug, Structural)]
pub struct BboxInfo {
    pub left_bits: u32,
    pub top_bits: u32,
    pub width_bits: u32,
    pub height_bits: u32,
}

/// The box of a face, as the bit patterns of its corner and its size.
#[derive(Clone, Copy, PartialEq, Eq, Debug, Structural)]
pub struct FaceBoxes {
    pub x_bits: u32,
    pub y_bits: u32,
    pub width_bits: u32,
    pub height_bits: u32,
}

impl FaceBoxes {
    /// The box with the given corner and size.
    pub fn new(x_bits: u32, y_bits: u32, width_bits: u32, height_bits: u32) -> (r: FaceBoxes)
        ensures
            r == (FaceBoxes { x_bits, y_bits, width_bits, height_bits }),
    {
        FaceBoxes { x_bits, y_bits, width_bits, height_bits }
    }

    pub fn x_bits(&self) -> (r: u32)
        ensures
            r == self.x_bits,
    {
        self.x_bits
    }

    pub fn y_bits(&self) -> (r: u32)
        ensures
            r == self.y_bits,
    {
        self.y_bits
    }

    pub fn width_bits(&self) -> (r: u32)
        ensures
            r == self.width_bits,
    {
        self.width_bits
    }

    pub fn height_bits(&self) -> (r: u32)
        ensures
            r == self.height_bits,
    {
        self.height_bits
    }
}

/// A text with its place on the frame.
#[derive(Debug)]
pub struct TextParams {
    pub display_text: String,
    pub x_offset: u32,
    pub y_offset: u32,
    pub set_bg_clr: bool,
    pub text_bg_clr: ColorParams,
}

/// What a [`TextParams`] holds.
pub struct TextParamsView {
    pub display_text: Seq<char>,
    pub x_offset: u32,
    pub y_offset: u32,
    pub set_bg_clr: bool,
    pub text_bg_clr: ColorParams,
}

impl View for TextParams {
    type V = TextParamsView;

    open spec fn view(&self) -> TextParamsView {
        TextParamsView {
            display_text: self.display_text@,
            x_offset: self.x_offset,
            y_offset: self.y_offset,
            set_bg_clr: self.set_bg_clr,
            text_bg_clr: self.text_bg_clr,
        }
    }
}

/// The colour with every channel zero.
pub fn zero_color() -> (r: ColorParams)
    ensures
        r == (ColorParams { red_bits: 0, green_bits: 0, blue_bits: 0, alpha_bits: 0 }),
{
    ColorParams { red_bits: 0, green_bits: 0, blue_bits: 0, alpha_bits: 0 }
}

impl RectParams {
    /// The rectangle with every field zero.
    pub open spec fn zero() -> RectParams {
        RectParams {
            left_bits: 0,
            top_bits: 0,
            width_bits: 0,
            height_bits: 0,
            border_width: 0,
            border_color: ColorParams { red_bits: 0, green_bits: 0, blue_bits: 0, alpha_bits: 0 },
            has_bg_color: false,
            bg_color: ColorParams { red_bits: 0, green_bits: 0, blue_bits: 0, alpha_bits: 0 },
        }
    }

    /// The rectangle with every field zero.
    pub fn new() -> (r: RectParams)
        ensures
            r == RectParams::zero(),
    {
        RectParams {
            left_bits: 0,
            top_bits: 0,
            width_bits: 0,
            height_bits: 0,
            border_width: 0,
            border_color: zero_color(),
            has_bg_color: false,
            bg_color: zero_color(),
        }
    }
}

impl BboxInfo {
    /// The box with every field zero.
    pub open spec fn zero() -> BboxInfo {
        BboxInfo { left_bits: 0, top_bits: 0, width_bits: 0, height_bits: 0 }
    }

    /// The box with every field zero.
    pub fn new() -> (r: BboxInfo)
        ensures
            r == BboxInfo::zero(),
    {
        BboxInfo { left_bits: 0, top_bits: 0, width_bits: 0, height_bits: 0 }
    }
}

impl TextParams {
    /// The empty text at the origin.
    pub open spec fn zero() -> TextParamsView {
        TextParamsView {
            display_text: Seq::<char>::empty(),
            x_offset: 0,
            y_offset: 0,
            set_bg_clr: false,
            text_bg_clr: ColorParams { red_bits: 0, green_bits: 0, blue_bits: 0, alpha_bits: 0 },
        }
    }

    /// The empty text at the origin.
    pub fn new() -> (r: TextParams)
        ensures
            r@ == TextParams::zero(),
    {
        TextParams {
            display_text: String::new(),
            x_offset: 0,
            y_offset: 0,
            set_bg_clr: false,
            text_bg_clr: zero_color(),
        }
    }

    /// A text of its own that holds what this one holds.
    pub fn duplicate(&self) -> (r: TextParams)
        ensures
            r@ == self@,
    {
        TextParams {
            display_text: self.display_text.clone(),
            x_offset: self.x_offset,
            y_offset: self.y_offset,
            set_bg_clr: self.set_bg_clr,
            text_bg_clr: self.text_bg_clr,
        }
    }
}

/// The mask of a detection: one value per cell, row by row.
#[derive(Debug)]
pub struct MaskParams {
    pub data_bits: Vec<u32>,
    pub threshold_bits: u32,
    pub width: u32,
    pub height: u32,
}

/// What a [`MaskParams`] holds.
pub struct MaskParamsView {
    pub data_bits: Seq<u32>,
    pub threshold_bits: u32,
    pub width: u32,
    pub height: u32,
}

impl View for MaskParams {
    type V = MaskParamsView;

    open spec fn view(&self) -> MaskParamsView {
        MaskParamsView {
            data_bits: self.data_bits@,
            threshold_bits: self.threshold_bits,
            width: self.width,
            height: self.height,
        }
    }
}

/// A vector of its own with the elements of `v`.
pub fn duplicate_values<T: Copy>(v: &Vec<T>) -> (r: Vec<T>)
    ensures
        r@ == v@,
{
    let mut out: Vec<T> = Vec::new();
    let mut i: usize = 0;
    while i < v.len()
        invariant
            i <= v.len(),
            out@ == v@.subrange(0, i as int),
        decreases v.len() - i,
    {
        out.push(v[i]);
        assert(v@.subrange(0, i as int).push(v@[i as int]) == v@.subrange(0, i + 1));
        i += 1;
    }
    assert(v@.subrange(0, v@.len() as int) == v@);
    out
}

/// What a vector of texts holds, text by text.
pub open spec fn texts_view(v: Seq<TextParams>) -> Seq<TextParamsView> {
    Seq::new(v.len(), |i: int| v[i]@)
}

/// A vector of its own with texts of their own that hold what those of `v`
/// hold.
pub fn duplicate_texts(v: &Vec<TextParams>) -> (r: Vec<TextParams>)
    ensures
        texts_view(r@) == texts_view(v@),
        r@.len() == v@.len(),
{
    let mut out: Vec<TextParams> = Vec::new();
    let mut i: usize = 0;
    while i < v.len()
        invariant
            i <= v.len(),
            out@.len() == i,
            forall|j: int| 0 <= j < i ==> out@[j]@ == v@[j]@,
        decreases v.len() - i,
    {
        out.push(v[i].duplicate());
        i += 1;
    }
    assert(texts_view(out@) =~= texts_view(v@));
    out
}

impl MaskParams {
    /// The empty mask.
    pub open spec fn zero() -> MaskParamsView {
        MaskParamsView { data_bits: Seq::<u32>::empty(), threshold_bits: 0, width: 0, height: 0 }
    }

    /// The empty mask.
    pub fn new() -> (r: MaskParams)
        ensures
            r@ == MaskParams::zero(),
    {
        MaskParams { data_bits: Vec::new(), threshold_bits: 0, width: 0, height: 0 }
    }

    /// A mask of its own that holds what this one holds.
    pub fn duplicate(&self) -> (r: MaskParams)
        ensures
            r@ == self@,
    {
        MaskParams {
            data_bits: duplicate_values(&self.data_bits),
            threshold_bits: self.threshold_bits,
            width: self.width,
            height: self.height,
        }
    }
}

} // verus!
