//! Frame records.

use crate::base::BaseMeta;
use crate::meta_type::{BaseMetaType, MetaType};
use vstd::prelude::*;

verus! {

/// What a stage writes into a frame record.
#[derive(Clone, Copy, Debug)]
pub struct FrameData {
    pub pad_index: u32,
    pub batch_id: u32,
    pub frame_num: i32,
    pub buf_pts: u64,
    pub ntp_timestamp: u64,
    pub source_id: u32,
    pub num_surfaces_per_frame: i32,
    pub source_frame_width: u32,
    pub source_frame_height: u32,
    pub surface_type: u32,
    pub surface_index: u32,
    pub infer_done: bool,
    pub misc_frame_info: [i64; 4],
    pub pipeline_width: u32,
    pub pipeline_height: u32,
}

impl FrameData {
    /// The data of a fresh frame record: every field zero.
    pub open spec fn zero() -> FrameData {
        FrameData {
            pad_index: 0,
            batch_id: 0,
            frame_num: 0,
            buf_pts: 0,
            ntp_timestamp: 0,
            source_id: 0,
            num_surfaces_per_frame: 0,
            source_frame_width: 0,
            source_frame_height: 0,
            surface_type: 0,
            surface_index: 0,
            infer_done: false,
            misc_frame_info: [0i64, 0i64, 0i64, 0i64],
            pipeline_width: 0,
            pipeline_height: 0,
        }
    }

    /// The data of a fresh frame record: every field zero.
    pub fn new() -> (r: FrameData)
        ensures
            r == FrameData::zero(),
    {
        FrameData {
            pad_index: 0,
            batch_id: 0,
            frame_num: 0,
            buf_pts: 0,
            ntp_timestamp: 0,
            source_id: 0,
            num_surfaces_per_frame: 0,
            source_frame_width: 0,
            source_frame_height: 0,
            surface_type: 0,
            surface_index: 0,
            infer_done: false,
            misc_frame_info: [0i64, 0i64, 0i64, 0i64],
            pipeline_width: 0,
            pipeline_height: 0,
        }
    }
}

/// One frame of a batch.
#[derive(Clone, Copy, Debug)]
pub struct FrameMeta {
    pub base_meta: BaseMeta,
    pub data: FrameData,
    pub num_obj_meta: u32,
}

impl FrameMeta {
    /// The fresh frame record.
    pub open spec fn fresh() -> FrameMeta {
        FrameMeta {
            base_meta: BaseMeta::fresh(MetaType::Base(BaseMetaType::FrameMeta)),
            data: FrameData::zero(),
            num_obj_meta: 0,
        }
    }

    /// The fresh frame record.
    pub fn new() -> (r: FrameMeta)
        ensures
            r == FrameMeta::fresh(),
    {
        FrameMeta {
            base_meta: BaseMeta::new(MetaType::Base(BaseMetaType::FrameMeta)),
            data: FrameData::new(),
            num_obj_meta: 0,
        }
    }

    pub fn base_meta(&self) -> (r: &BaseMeta)
        ensures
            *r == self.base_meta,
    {
        &self.base_meta
    }

    /// Everything that a stage writes into the record.
    pub fn data(&self) -> (r: &FrameData)
        ensures
            *r == self.data,
    {
        &self.data
    }

    pub fn pad_index(&self) -> (r: u32)
        ensures
            r == self.data.pad_index,
    {
        self.data.pad_index
    }

    pub fn batch_id(&self) -> (r: u32)
        ensures
            r == self.data.batch_id,
    {
        self.data.batch_id
    }

    pub fn frame_num(&self) -> (r: i32)
        ensures
            r == self.data.frame_num,
    {
        self.data.frame_num
    }

    pub fn buf_pts(&self) -> (r: u64)
        ensures
            r == self.data.buf_pts,
    {
        self.data.buf_pts
    }

    pub fn ntp_timestamp(&self) -> (r: u64)
        ensures
            r == self.data.ntp_timestamp,
    {
        self.data.ntp_timestamp
    }

    pub fn source_id(&self) -> (r: u32)
        ensures
            r == self.data.source_id,
    {
        self.data.source_id
    }

    pub fn num_surfaces_per_frame(&self) -> (r: i32)
        ensures
            r == self.data.num_surfaces_per_frame,
    {
        self.data.num_surfaces_per_frame
    }

    pub fn source_frame_width(&self) -> (r: u32)
        ensures
            r == self.data.source_frame_width,
    {
        self.data.source_frame_width
    }

    pub fn source_frame_height(&self) -> (r: u32)
        ensures
            r == self.data.source_frame_height,
    {
        self.data.source_frame_height
    }

    pub fn surface_type(&self) -> (r: u32)
        ensures
            r == self.data.surface_type,
    {
        self.data.surface_type
    }

    pub fn surface_index(&self) -> (r: u32)
        ensures
            r == self.data.surface_index,
    {
        self.data.surface_index
    }

    /// The number of objects in the frame's object list.
    pub fn num_obj_meta(&self) -> (r: u32)
        ensures
            r == self.num_obj_meta,
    {
        self.num_obj_meta
    }

    pub fn infer_done(&self) -> (r: bool)
        ensures
            r == self.data.infer_done,
    {
        self.data.infer_done
    }

    pub fn misc_frame_info(&self) -> (r: [i64; 4])
        ensures
            r == self.data.misc_frame_info,
    {
        self.data.misc_frame_info
    }

    pub fn pipeline_width(&self) -> (r: u32)
        ensures
            r == self.data.pipeline_width,
    {
        self.data.pipeline_width
    }

    pub fn pipeline_height(&self) -> (r: u32)
        ensures
            r == self.data.pipeline_height,
    {
        self.data.pipeline_height
    }
}

} // verus!
