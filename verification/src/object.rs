//! Object records: one detected entity of a frame.

use crate::base::BaseMeta;
use crate::meta_type::{BaseMetaType, MetaType};
use crate::osd::{BboxInfo, MaskParams, MaskParamsView, RectParams, TextParams, TextParamsView};
use vstd::prelude::*;

verus! {

/// What a stage writes into an object record.
#[derive(Debug)]
pub struct ObjectData {
    pub unique_component_id: i32,
    pub class_id: i32,
    pub object_id: u64,
    pub detector_bbox_info: BboxInfo,
    pub tracker_bbox_info: BboxInfo,
    pub confidence_bits: u32,
    pub tracker_confidence_bits: u32,
    pub rect_params: RectParams,
    pub mask_params: MaskParams,
    pub text_params: TextParams,
    pub obj_label: String,
    pub misc_obj_info: [i64; 4],
}

/// What an [`ObjectData`] holds.
pub struct ObjectDataView {
    pub unique_component_id: i32,
    pub class_id: i32,
    pub object_id: u64,
    pub detector_bbox_info: BboxInfo,
    pub tracker_bbox_info: BboxInfo,
    pub confidence_bits: u32,
    pub tracker_confidence_bits: u32,
    pub rect_params: RectParams,
    pub mask_params: MaskParamsView,
    pub text_params: TextParamsView,
    pub obj_label: Seq<char>,
    pub misc_obj_info: [i64; 4],
}

impl View for ObjectData {
    type V = ObjectDataView;

    open spec fn view(&self) -> ObjectDataView {
        ObjectDataView {
            unique_component_id: self.unique_component_id,
            class_id: self.class_id,
            object_id: self.object_id,
            detector_bbox_info: self.detector_bbox_info,
            tracker_bbox_info: self.tracker_bbox_info,
            confidence_bits: self.confidence_bits,
            tracker_confidence_bits: self.tracker_confidence_bits,
            rect_params: self.rect_params,
            mask_params: self.mask_params@,
            text_params: self.text_params@,
            obj_label: self.obj_label@,
            misc_obj_info: self.misc_obj_info,
        }
    }
}

impl ObjectData {
    /// The data of a fresh object record: every number zero, every text and
    /// the mask empty.
    pub open spec fn zero() -> ObjectDataView {
        ObjectDataView {
            unique_component_id: 0,
            class_id: 0,
            object_id: 0,
            detector_bbox_info: BboxInfo::zero(),
            tracker_bbox_info: BboxInfo::zero(),
            confidence_bits: 0,
            tracker_confidence_bits: 0,
            rect_params: RectParams::zero(),
            mask_params: MaskParams::zero(),
            text_params: TextParams::zero(),
            obj_label: Seq::<char>::empty(),
            misc_obj_info: [0i64, 0i64, 0i64, 0i64],
        }
    }

    /// The data of a fresh object record.
    pub fn new() -> (r: ObjectData)
        ensures
            r@ == ObjectData::zero(),
    {
        ObjectData {
            unique_component_id: 0,
            class_id: 0,
            object_id: 0,
            detector_bbox_info: BboxInfo::new(),
            tracker_bbox_info: BboxInfo::new(),
            confidence_bits: 0,
            tracker_confidence_bits: 0,
            rect_params: RectParams::new(),
            mask_params: MaskParams::new(),
            text_params: TextParams::new(),
            obj_label: String::new(),
            misc_obj_info: [0i64, 0i64, 0i64, 0i64],
        }
    }

    /// Data of its own that holds what this holds.
    pub fn duplicate(&self) -> (r: ObjectData)
        ensures
            r@ == self@,
    {
        ObjectData {
            unique_component_id: self.unique_component_id,
            class_id: self.class_id,
            object_id: self.object_id,
            detector_bbox_info: self.detector_bbox_info,
            tracker_bbox_info: self.tracker_bbox_info,
            confidence_bits: self.confidence_bits,
            tracker_confidence_bits: self.tracker_confidence_bits,
            rect_params: self.rect_params,
            mask_params: self.mask_params.duplicate(),
            text_params: self.text_params.duplicate(),
            obj_label: self.obj_label.clone(),
            misc_obj_info: self.misc_obj_info,
        }
    }
}

/// The slot of an object together with the generation of that slot at the
/// time the reference was made. The reference stands for the object only as
/// long as the slot has not been handed out again.
#[derive(Clone, Copy, PartialEq, Eq, Debug, Structural)]
pub struct ParentRef {
    pub slot: usize,
    pub generation: u64,
}

/// One detected entity of a frame.
#[derive(Debug)]
pub struct ObjectMeta {
    pub base_meta: BaseMeta,
    pub data: ObjectData,
    pub parent: Option<ParentRef>,
}

/// What an [`ObjectMeta`] holds.
pub struct ObjectMetaView {
    pub base_meta: BaseMeta,
    pub data: ObjectDataView,
    pub parent: Option<ParentRef>,
}

impl View for ObjectMeta {
    type V = ObjectMetaView;

    open spec fn view(&self) -> ObjectMetaView {
        ObjectMetaView { base_meta: self.base_meta, data: self.data@, parent: self.parent }
    }
}

impl ObjectMeta {
    /// The fresh object record.
    pub open spec fn fresh() -> ObjectMetaView {
        ObjectMetaView {
            base_meta: BaseMeta::fresh(MetaType::Base(BaseMetaType::ObjMeta)),
            data: ObjectData::zero(),
            parent: None,
        }
    }

    /// The fresh object record.
    pub fn new() -> (r: ObjectMeta)
        ensures
            r@ == ObjectMeta::fresh(),
    {
        ObjectMeta {
            base_meta: BaseMeta::new(MetaType::Base(BaseMetaType::ObjMeta)),
            data: ObjectData::new(),
            parent: None,
        }
    }

    pub fn base_meta(&self) -> (r: &BaseMeta)
        ensures
            *r == self.base_meta,
    {
        &self.base_meta
    }

    /// Everything that a stage writes into the record.
    pub fn data(&self) -> (r: &ObjectData)
        ensures
            *r == self.data,
    {
        &self.data
    }

    pub fn unique_component_id(&self) -> (r: i32)
        ensures
            r == self.data.unique_component_id,
    {
        self.data.unique_component_id
    }

    pub fn class_id(&self) -> (r: i32)
        ensures
            r == self.data.class_id,
    {
        self.data.class_id
    }

    pub fn object_id(&self) -> (r: u64)
        ensures
            r == self.data.object_id,
    {
        self.data.object_id
    }

    pub fn detector_bbox_info(&self) -> (r: &BboxInfo)
        ensures
            *r == self.data.detector_bbox_info,
    {
        &self.data.detector_bbox_info
    }

    pub fn tracker_bbox_info(&self) -> (r: &BboxInfo)
        ensures
            *r == self.data.tracker_bbox_info,
    {
        &self.data.tracker_bbox_info
    }

    /// The bit pattern of the detector's confidence.
    pub fn confidence_bits(&self) -> (r: u32)
        ensures
            r == self.data.confidence_bits,
    {
        self.data.confidence_bits
    }

    /// The bit pattern of the tracker's confidence.
    pub fn tracker_confidence_bits(&self) -> (r: u32)
        ensures
            r == self.data.tracker_confidence_bits,
    {
        self.data.tracker_confidence_bits
    }

    pub fn rect_params(&self) -> (r: &RectParams)
        ensures
            *r == self.data.rect_params,
    {
        &self.data.rect_params
    }

    pub fn mask_params(&self) -> (r: &MaskParams)
        ensures
            *r == self.data.mask_params,
    {
        &self.data.mask_params
    }

    pub fn text_params(&self) -> (r: &TextParams)
        ensures
            *r == self.data.text_params,
    {
        &self.data.text_params
    }

    pub fn obj_label(&self) -> (r: &String)
        ensures
            *r == self.data.obj_label,
    {
        &self.data.obj_label
    }

    pub fn misc_obj_info(&self) -> (r: [i64; 4])
        ensures
            r == self.data.misc_obj_info,
    {
        self.data.misc_obj_info
    }
}

} // verus!
