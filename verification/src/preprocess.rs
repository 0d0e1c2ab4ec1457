//! The result of pre-processing a batch: one tensor, the regions of interest
//! that it was computed from, and the components that it is meant for.
//!
//! A batch carries this as the payload of a user record of the kind
//! [`BaseMetaType::PreprocessBatchMeta`](crate::meta_type::BaseMetaType).

use crate::classifier::ClassifierMeta;
use crate::list::{MetaList, SlotList};
use crate::osd::{duplicate_values, RectParams, ROI_POLYGON_POINTS};
use crate::user::UserMeta;
use vstd::prelude::*;

verus! {

/// One region of interest: a rectangle of a frame with the factors by which
/// it was scaled and shifted into the tensor.
///
/// The two lists name classifier and user records by their slots. The region
/// does not own those records.
#[derive(Debug)]
pub struct RoiMeta {
    pub roi: RectParams,
    pub roi_polygon: [(u32, u32); 8],
    pub frame_meta: usize,
    pub scale_ratio_x_bits: u64,
    pub scale_ratio_y_bits: u64,
    pub offset_left_bits: u64,
    pub offset_top_bits: u64,
    pub classifier_meta_list: SlotList,
    pub roi_user_meta_list: SlotList,
}

/// What a [`RoiMeta`] holds.
pub struct RoiMetaView {
    pub roi: RectParams,
    pub roi_polygon: Seq<(u32, u32)>,
    pub frame_meta: usize,
    pub scale_ratio_x_bits: u64,
    pub scale_ratio_y_bits: u64,
    pub offset_left_bits: u64,
    pub offset_top_bits: u64,
    pub classifier_meta_list: Seq<usize>,
    pub roi_user_meta_list: Seq<usize>,
}

impl View for RoiMeta {
    type V = RoiMetaView;

    open spec fn view(&self) -> RoiMetaView {
        RoiMetaView {
            roi: self.roi,
            roi_polygon: self.roi_polygon@,
            frame_meta: self.frame_meta,
            scale_ratio_x_bits: self.scale_ratio_x_bits,
            scale_ratio_y_bits: self.scale_ratio_y_bits,
            offset_left_bits: self.offset_left_bits,
            offset_top_bits: self.offset_top_bits,
            classifier_meta_list: self.classifier_meta_list@,
            roi_user_meta_list: self.roi_user_meta_list@,
        }
    }
}

impl RoiMeta {
    /// The region `roi` of the frame in slot `frame_meta`, with every factor
    /// and corner point zero and both lists empty.
    pub fn new(roi: RectParams, frame_meta: usize) -> (r: RoiMeta)
        ensures
            r.roi == roi,
            r.frame_meta == frame_meta,
            r.scale_ratio_x_bits == 0,
            r.scale_ratio_y_bits == 0,
            r.offset_left_bits == 0,
            r.offset_top_bits == 0,
            r.classifier_meta_list@ == Seq::<usize>::empty(),
            r.roi_user_meta_list@ == Seq::<usize>::empty(),
            forall|i: int| 0 <= i < ROI_POLYGON_POINTS ==> r.roi_polygon@[i] == (0u32, 0u32),
    {
        RoiMeta {
            roi,
            roi_polygon: [(0u32, 0u32); 8],
            frame_meta,
            scale_ratio_x_bits: 0,
            scale_ratio_y_bits: 0,
            offset_left_bits: 0,
            offset_top_bits: 0,
            classifier_meta_list: SlotList::new(),
            roi_user_meta_list: SlotList::new(),
        }
    }

    /// A region of its own that holds what this one holds.
    pub fn duplicate(&self) -> (r: RoiMeta)
        ensures
            r@ == self@,
    {
        RoiMeta {
            roi: self.roi,
            roi_polygon: self.roi_polygon,
            frame_meta: self.frame_meta,
            scale_ratio_x_bits: self.scale_ratio_x_bits,
            scale_ratio_y_bits: self.scale_ratio_y_bits,
            offset_left_bits: self.offset_left_bits,
            offset_top_bits: self.offset_top_bits,
            classifier_meta_list: self.classifier_meta_list.duplicate(),
            roi_user_meta_list: self.roi_user_meta_list.duplicate(),
        }
    }

    pub fn roi(&self) -> (r: &RectParams)
        ensures
            *r == self.roi,
    {
        &self.roi
    }

    /// The corner point at `index`, or `None` where the polygon has no such
    /// point.
    pub fn roi_polygon(&self, index: usize) -> (r: Option<(u32, u32)>)
        ensures
            r == (if index < ROI_POLYGON_POINTS {
                Some(self.roi_polygon@[index as int])
            } else {
                None
            }),
    {
        if index < ROI_POLYGON_POINTS {
            Some(self.roi_polygon[index])
        } else {
            None
        }
    }

    /// The slot of the frame that the region lies in.
    pub fn frame_meta(&self) -> (r: usize)
        ensures
            r == self.frame_meta,
    {
        self.frame_meta
    }

    /// The bit pattern of the horizontal scale factor.
    pub fn scale_ratio_x_bits(&self) -> (r: u64)
        ensures
            r == self.scale_ratio_x_bits,
    {
        self.scale_ratio_x_bits
    }

    /// The bit pattern of the vertical scale factor.
    pub fn scale_ratio_y_bits(&self) -> (r: u64)
        ensures
            r == self.scale_ratio_y_bits,
    {
        self.scale_ratio_y_bits
    }

    /// The bit pattern of the horizontal offset.
    pub fn offset_left_bits(&self) -> (r: u64)
        ensures
            r == self.offset_left_bits,
    {
        self.offset_left_bits
    }

    /// The bit pattern of the vertical offset.
    pub fn offset_top_bits(&self) -> (r: u64)
        ensures
            r == self.offset_top_bits,
    {
        self.offset_top_bits
    }

    /// The classifier records of the region, or `None` where it has none.
    pub fn classifier_meta_list(&self) -> (r: Option<MetaList<'_, ClassifierMeta>>)
        ensures
            r is Some <==> self.classifier_meta_list@.len() > 0,
            r is Some ==> r.unwrap()@ == self.classifier_meta_list@,
    {
        if self.classifier_meta_list.is_empty() {
            None
        } else {
            Some(MetaList::new(&self.classifier_meta_list))
        }
    }

    /// The user records of the region, or `None` where it has none.
    pub fn roi_user_meta_list(&self) -> (r: Option<MetaList<'_, UserMeta>>)
        ensures
            r is Some <==> self.roi_user_meta_list@.len() > 0,
            r is Some ==> r.unwrap()@ == self.roi_user_meta_list@,
    {
        if self.roi_user_meta_list.is_empty() {
            None
        } else {
            Some(MetaList::new(&self.roi_user_meta_list))
        }
    }

    /// Appends the classifier record in slot `classifier_meta` to the
    /// region's list.
    pub fn add_classifier_meta(&mut self, classifier_meta: usize)
        ensures
            final(self)@ == (RoiMetaView {
                classifier_meta_list: old(self).classifier_meta_list@.push(classifier_meta),
                ..old(self)@
            }),
    {
        self.classifier_meta_list.append(classifier_meta);
    }

    /// Takes the first entry for slot `classifier_meta` out of the region's
    /// list. Nothing changes where the list does not hold it.
    pub fn remove_classifier_meta(&mut self, classifier_meta: usize)
        ensures
            final(self)@ == (RoiMetaView {
                classifier_meta_list: if old(self).classifier_meta_list@.contains(
                    classifier_meta,
                ) {
                    old(self).classifier_meta_list@.remove(
                        crate::list::first_index_of(
                            old(self).classifier_meta_list@,
                            classifier_meta,
                        ),
                    )
                } else {
                    old(self).classifier_meta_list@
                },
                ..old(self)@
            }),
    {
        self.classifier_meta_list.remove(classifier_meta);
    }

    /// Appends the user record in slot `meta` to the region's list.
    pub fn add_user_meta(&mut self, meta: usize)
        ensures
            final(self)@ == (RoiMetaView {
                roi_user_meta_list: old(self).roi_user_meta_list@.push(meta),
                ..old(self)@
            }),
    {
        self.roi_user_meta_list.append(meta);
    }

    /// Takes the first entry for slot `meta` out of the region's list.
    /// Nothing changes where the list does not hold it.
    pub fn remove_user_meta(&mut self, meta: usize)
        ensures
            final(self)@ == (RoiMetaView {
                roi_user_meta_list: if old(self).roi_user_meta_list@.contains(meta) {
                    old(self).roi_user_meta_list@.remove(
                        crate::list::first_index_of(old(self).roi_user_meta_list@, meta),
                    )
                } else {
                    old(self).roi_user_meta_list@
                },
                ..old(self)@
            }),
    {
        self.roi_user_meta_list.remove(meta);
    }
}

/// What a vector of regions holds, region by region.
pub open spec fn rois_view(v: Seq<RoiMeta>) -> Seq<RoiMetaView> {
    Seq::new(v.len(), |i: int| v[i]@)
}

/// A vector of its own with regions of their own that hold what those of `v`
/// hold.
pub fn duplicate_rois(v: &Vec<RoiMeta>) -> (r: Vec<RoiMeta>)
    ensures
        rois_view(r@) == rois_view(v@),
        r@.len() == v@.len(),
{
    let mut out: Vec<RoiMeta> = Vec::new();
    let mut i: usize = 0;
    while i < v.len()
        invariant
            i <= v.len(),
            out@.len() == i,
            forall|j: int| 0 <= j < i ==> out@[j]@ == v@[j]@,
        decreases v.len() - i,
    {
        out.push(v[i].duplicate());
        i += 1;
    }
    assert(rois_view(out@) =~= rois_view(v@));
    out
}

/// The description of a tensor: where it lies, how large it is, and its
/// shape as the ordered sequence of its dimensions.
#[derive(Debug)]
pub struct PreProcessTensorMeta {
    pub meta_id: u32,
    pub gpu_id: u32,
    pub buffer_size: u64,
    pub tensor_name: Option<String>,
    pub tensor_shape: Vec<i32>,
}

/// What a [`PreProcessTensorMeta`] holds.
pub struct PreProcessTensorMetaView {
    pub meta_id: u32,
    pub gpu_id: u32,
    pub buffer_size: u64,
    pub tensor_name: Option<Seq<char>>,
    pub tensor_shape: Seq<i32>,
}

impl View for PreProcessTensorMeta {
    type V = PreProcessTensorMetaView;

    open spec fn view(&self) -> PreProcessTensorMetaView {
        PreProcessTensorMetaView {
            meta_id: self.meta_id,
            gpu_id: self.gpu_id,
            buffer_size: self.buffer_size,
            tensor_name: match self.tensor_name {
                Some(n) => Some(n@),
                None => None,
            },
            tensor_shape: self.tensor_shape@,
        }
    }
}

impl Default for PreProcessTensorMeta {
    fn default() -> (r: PreProcessTensorMeta)
        ensures
            r@ == (PreProcessTensorMetaView {
                meta_id: 0,
                gpu_id: 0,
                buffer_size: 0,
                tensor_name: None,
                tensor_shape: Seq::empty(),
            }),
    {
        PreProcessTensorMeta {
            meta_id: 0,
            gpu_id: 0,
            buffer_size: 0,
            tensor_name: None,
            tensor_shape: Vec::new(),
        }
    }
}

impl PreProcessTensorMeta {
    /// A description of its own that holds what this one holds.
    pub fn duplicate(&self) -> (r: PreProcessTensorMeta)
        ensures
            r@ == self@,
    {
        PreProcessTensorMeta {
            meta_id: self.meta_id,
            gpu_id: self.gpu_id,
            buffer_size: self.buffer_size,
            tensor_name: match &self.tensor_name {
                Some(n) => Some(n.clone()),
                None => None,
            },
            tensor_shape: duplicate_values(&self.tensor_shape),
        }
    }

    pub fn meta_id(&self) -> (r: u32)
        ensures
            r == self.meta_id,
    {
        self.meta_id
    }

    pub fn gpu_id(&self) -> (r: u32)
        ensures
            r == self.gpu_id,
    {
        self.gpu_id
    }

    pub fn buffer_size(&self) -> (r: u64)
        ensures
            r == self.buffer_size,
    {
        self.buffer_size
    }

    /// The name of the tensor, or `None` where it has none.
    pub fn tensor_name(&self) -> (r: Option<&String>)
        ensures
            r is Some <==> self.tensor_name is Some,
            r is Some ==> *r.unwrap() == self.tensor_name.unwrap(),
    {
        self.tensor_name.as_ref()
    }

    /// The dimensions of the tensor, first to last.
    pub fn tensor_shape(&self) -> (r: &[i32])
        ensures
            r@ == self.tensor_shape@,
    {
        self.tensor_shape.as_slice()
    }
}

/// The result of pre-processing a batch.
#[derive(Debug)]
pub struct PreProcessBatchMeta {
    pub tensor_meta: PreProcessTensorMeta,
    pub roi_vector: Vec<RoiMeta>,
    pub target_unique_ids: Vec<u64>,
}

/// What a [`PreProcessBatchMeta`] holds.
pub struct PreProcessBatchMetaView {
    pub tensor_meta: PreProcessTensorMetaView,
    pub roi_vector: Seq<RoiMetaView>,
    pub target_unique_ids: Seq<u64>,
}

impl View for PreProcessBatchMeta {
    type V = PreProcessBatchMetaView;

    open spec fn view(&self) -> PreProcessBatchMetaView {
        PreProcessBatchMetaView {
            tensor_meta: self.tensor_meta@,
            roi_vector: rois_view(self.roi_vector@),
            target_unique_ids: self.target_unique_ids@,
        }
    }
}

impl Default for PreProcessBatchMeta {
    fn default() -> (r: PreProcessBatchMeta)
        ensures
            r@ == (PreProcessBatchMetaView {
                tensor_meta: PreProcessTensorMetaView {
                    meta_id: 0,
                    gpu_id: 0,
                    buffer_size: 0,
                    tensor_name: None,
                    tensor_shape: Seq::empty(),
                },
                roi_vector: Seq::empty(),
                target_unique_ids: Seq::empty(),
            }),
    {
        let r = PreProcessBatchMeta {
            tensor_meta: PreProcessTensorMeta::default(),
            roi_vector: Vec::new(),
            target_unique_ids: Vec::new(),
        };
        assert(r@.roi_vector =~= Seq::<RoiMetaView>::empty());
        r
    }
}

impl PreProcessBatchMeta {
    /// A result of its own that holds what this one holds: the shape, the
    /// regions and the component ids are copied element by element.
    pub fn duplicate(&self) -> (r: PreProcessBatchMeta)
        ensures
            r@ == self@,
    {
        PreProcessBatchMeta {
            tensor_meta: self.tensor_meta.duplicate(),
            roi_vector: duplicate_rois(&self.roi_vector),
            target_unique_ids: duplicate_values(&self.target_unique_ids),
        }
    }

    pub fn tensor_meta(&self) -> (r: &PreProcessTensorMeta)
        ensures
            *r == self.tensor_meta,
    {
        &self.tensor_meta
    }

    /// The regions that the tensor was computed from, in order.
    pub fn roi_vector(&self) -> (r: &[RoiMeta])
        ensures
            r@ == self.roi_vector@,
    {
        self.roi_vector.as_slice()
    }

    /// The components that the tensor is meant for, in order.
    pub fn target_unique_ids(&self) -> (r: &[u64])
        ensures
            r@ == self.target_unique_ids@,
    {
        self.target_unique_ids.as_slice()
    }
}

} // verus!
