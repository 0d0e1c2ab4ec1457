//! Building a display record from lists of primitives.

use crate::batch::BatchMeta;
use crate::display::{DisplayData, DisplayDataView, DisplayMeta, DisplayMetaView};
use crate::kind::{Kind, NodeRef};
use crate::osd::{
    texts_view, ArrowParams, CircleParams, LineParams, RectParams, TextParams,
    MAX_ELEMENTS_IN_DISPLAY_META,
};
use crate::record::{Record, RecordView};
use vstd::prelude::*;

verus! {

/// The first entries of `s`, as many as a display record has room for.
pub open spec fn kept<T>(s: Seq<T>) -> Seq<T> {
    if s.len() <= MAX_ELEMENTS_IN_DISPLAY_META {
        s
    } else {
        s.take(MAX_ELEMENTS_IN_DISPLAY_META as int)
    }
}

/// The first entries of the list that `v` holds, as many as a display
/// record has room for, or no entry where `v` holds no list.
pub open spec fn kept_of<T>(v: Option<Vec<T>>) -> Seq<T> {
    match v {
        Some(list) => kept(list@),
        None => Seq::empty(),
    }
}

/// The miscellaneous values of a display record that is built with
/// `values`: those of `values`, as many as a display record has room for,
/// and zero after them.
pub open spec fn misc_of(values: Option<Vec<i64>>) -> Seq<i64> {
    Seq::new(
        MAX_ELEMENTS_IN_DISPLAY_META as nat,
        |i: int|
            match values {
                Some(v) => if i < v@.len() {
                    v@[i]
                } else {
                    0i64
                },
                None => 0i64,
            },
    )
}

/// The first entries of the list that `v` holds, as many as a display
/// record has room for.
fn keep<T>(v: Option<Vec<T>>) -> (r: Vec<T>)
    ensures
        r@ == kept_of(v),
        r@.len() <= MAX_ELEMENTS_IN_DISPLAY_META,
{
    match v {
        Some(list) => {
            let ghost whole = list@;
            let mut list = list;
            if list.len() > MAX_ELEMENTS_IN_DISPLAY_META {
                list.truncate(MAX_ELEMENTS_IN_DISPLAY_META);
                assert(list@ =~= whole.take(MAX_ELEMENTS_IN_DISPLAY_META as int));
            }
            list
        },
        None => Vec::new(),
    }
}

/// The miscellaneous values of a display record that is built with
/// `values`.
fn misc(values: &Option<Vec<i64>>) -> (r: [i64; 16])
    ensures
        r@ == misc_of(*values),
{
    let mut out = [0i64; 16];
    match values {
        Some(v) => {
            let mut i: usize = 0;
            while i < MAX_ELEMENTS_IN_DISPLAY_META && i < v.len()
                invariant
                    i <= MAX_ELEMENTS_IN_DISPLAY_META,
                    i <= v@.len(),
                    forall|j: int| 0 <= j < i ==> out@[j] == v@[j],
                    forall|j: int| i <= j < MAX_ELEMENTS_IN_DISPLAY_META ==> out@[j] == 0,
                decreases MAX_ELEMENTS_IN_DISPLAY_META - i,
            {
                out[i] = v[i];
                i += 1;
            }
            assert(out@ =~= misc_of(*values));
        },
        None => {
            assert(out@ =~= misc_of(*values));
        },
    }
    out
}

/// Collects the primitives of a display record before the record is taken
/// from its pool.
pub struct DisplayMetaBuilder {
    pub rect_params: Option<Vec<RectParams>>,
    pub text_params: Option<Vec<TextParams>>,
    pub line_params: Option<Vec<LineParams>>,
    pub arrow_params: Option<Vec<ArrowParams>>,
    pub circle_params: Option<Vec<CircleParams>>,
    pub misc_osd_data: Option<Vec<i64>>,
}

impl DisplayMetaBuilder {
    /// What the display record holds that is built from this: of each kind
    /// of primitive the first entries, as many as a display record has
    /// room for.
    pub open spec fn data(&self) -> DisplayDataView {
        DisplayDataView {
            rect_params: kept_of(self.rect_params),
            text_params: texts_view(kept_of(self.text_params)),
            line_params: kept_of(self.line_params),
            arrow_params: kept_of(self.arrow_params),
            circle_params: kept_of(self.circle_params),
            misc_osd_data: misc_of(self.misc_osd_data),
        }
    }

    /// A builder that holds no list.
    pub fn new() -> (r: DisplayMetaBuilder)
        ensures
            r.rect_params is None,
            r.text_params is None,
            r.line_params is None,
            r.arrow_params is None,
            r.circle_params is None,
            r.misc_osd_data is None,
    {
        DisplayMetaBuilder {
            rect_params: None,
            text_params: None,
            line_params: None,
            arrow_params: None,
            circle_params: None,
            misc_osd_data: None,
        }
    }

    /// The builder with `value` as its rectangles.
    pub fn rect_params(self, value: Vec<RectParams>) -> (r: DisplayMetaBuilder)
        ensures
            r == (DisplayMetaBuilder { rect_params: Some(value), ..self }),
    {
        let mut b = self;
        b.rect_params = Some(value);
        b
    }

    /// The builder with `value` as its texts.
    pub fn text_params(self, value: Vec<TextParams>) -> (r: DisplayMetaBuilder)
        ensures
            r == (DisplayMetaBuilder { text_params: Some(value), ..self }),
    {
        let mut b = self;
        b.text_params = Some(value);
        b
    }

    /// The builder with `value` as its lines.
    pub fn line_params(self, value: Vec<LineParams>) -> (r: DisplayMetaBuilder)
        ensures
            r == (DisplayMetaBuilder { line_params: Some(value), ..self }),
    {
        let mut b = self;
        b.line_params = Some(value);
        b
    }

    /// The builder with `value` as its arrows.
    pub fn arrow_params(self, value: Vec<ArrowParams>) -> (r: DisplayMetaBuilder)
        ensures
            r == (DisplayMetaBuilder { arrow_params: Some(value), ..self }),
    {
        let mut b = self;
        b.arrow_params = Some(value);
        b
    }

    /// The builder with `value` as its circles.
    pub fn circle_params(self, value: Vec<CircleParams>) -> (r: DisplayMetaBuilder)
        ensures
            r == (DisplayMetaBuilder { circle_params: Some(value), ..self }),
    {
        let mut b = self;
        b.circle_params = Some(value);
        b
    }

    /// The builder with `value` as its miscellaneous values.
    pub fn misc_osd_data(self, value: Vec<i64>) -> (r: DisplayMetaBuilder)
        ensures
            r == (DisplayMetaBuilder { misc_osd_data: Some(value), ..self }),
    {
        let mut b = self;
        b.misc_osd_data = Some(value);
        b
    }

    /// Takes a display record from the pool of `batch` and fills it with
    /// what has been collected: of each kind of primitive the first
    /// entries, as many as a display record has room for, and the
    /// miscellaneous values likewise, with zero after them. Returns the
    /// slot of the record, which is in no list yet, or returns `None` and
    /// changes nothing where the pool has no free slot.
    pub fn build(self, batch: &mut BatchMeta) -> (r: Option<usize>)
        requires
            old(batch).wf(),
        ensures
            final(batch).wf(),
            r is Some <==> old(batch).pool(Kind::Display).free_count() > 0,
            r is None ==> *final(batch) == *old(batch),
            r is Some ==> final(batch).taken(
                old(batch),
                NodeRef { kind: Kind::Display, slot: r.unwrap() },
            ),
            r is Some ==> final(batch).record(NodeRef { kind: Kind::Display, slot: r.unwrap() })
                == RecordView::Display(
                DisplayMetaView { base_meta: DisplayMeta::fresh().base_meta, data: self.data() },
            ),
    {
        let misc_osd_data = misc(&self.misc_osd_data);
        let data = DisplayData {
            rect_params: keep(self.rect_params),
            text_params: keep(self.text_params),
            line_params: keep(self.line_params),
            arrow_params: keep(self.arrow_params),
            circle_params: keep(self.circle_params),
            misc_osd_data,
        };
        let fresh = DisplayMeta::new();
        let record = Record::Display(DisplayMeta { base_meta: fresh.base_meta, data });
        proof {
            assert(record@.wf());
        }
        match batch.acquire_with(record) {
            Ok(slot) => Some(slot),
            Err(_) => None,
        }
    }
}

} // verus!
