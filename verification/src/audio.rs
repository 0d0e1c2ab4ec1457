//! The layout of the records that describe audio.

use crate::base::BaseMeta;
use vstd::prelude::*;

verus! {

/// The format of one audio sample.
#[derive(Clone, Copy, PartialEq, Eq, Debug, Structural)]
pub enum AudioFormat {
    InvalidFormat,
    S8,
    U8,
    S16LE,
    S16BE,
    U16LE,
    U16BE,
    S24_32LE,
    S24_32BE,
    U24_32LE,
    U24_32BE,
    S32LE,
    S32BE,
    U32LE,
    U32BE,
    S24LE,
    S24BE,
    U24LE,
    U24BE,
    S20LE,
    S20BE,
    U20LE,
    U20BE,
    S18LE,
    S18BE,
    U18LE,
    U18BE,
    F32LE,
    F32BE,
    F64LE,
    F64BE,
}

/// How the samples of the channels lie in a buffer.
#[derive(Clone, Copy, PartialEq, Eq, Debug, Structural)]
pub enum AudioLayout {
    InvalidLayout,
    Interleaved,
    NonInterleaved,
}

/// The description of one buffer of audio samples, with the samples
/// themselves as bytes.
#[derive(Debug)]
pub struct AudioParams {
    pub layout: AudioLayout,
    pub format: AudioFormat,
    pub bpf: u32,
    pub channels: u32,
    pub rate: u32,
    pub data_size: u32,
    pub data: Vec<u8>,
    pub pad_id: u32,
    pub source_id: u32,
    pub ntp_timestamp: u64,
    pub buf_pts: u64,
    pub duration: u64,
}

impl AudioParams {
    pub fn layout(&self) -> (r: AudioLayout)
        ensures
            r == self.layout,
    {
        self.layout
    }

    pub fn format(&self) -> (r: AudioFormat)
        ensures
            r == self.format,
    {
        self.format
    }

    /// The number of bytes of one frame: one sample of each channel.
    pub fn bpf(&self) -> (r: u32)
        ensures
            r == self.bpf,
    {
        self.bpf
    }

    pub fn channels(&self) -> (r: u32)
        ensures
            r == self.channels,
    {
        self.channels
    }

    pub fn rate(&self) -> (r: u32)
        ensures
            r == self.rate,
    {
        self.rate
    }

    pub fn data_size(&self) -> (r: u32)
        ensures
            r == self.data_size,
    {
        self.data_size
    }

    /// The samples, as bytes.
    pub fn data(&self) -> (r: &[u8])
        ensures
            r@ == self.data@,
    {
        self.data.as_slice()
    }

    pub fn pad_id(&self) -> (r: u32)
        ensures
            r == self.pad_id,
    {
        self.pad_id
    }

    pub fn source_id(&self) -> (r: u32)
        ensures
            r == self.source_id,
    {
        self.source_id
    }

    pub fn ntp_timestamp(&self) -> (r: u64)
        ensures
            r == self.ntp_timestamp,
    {
        self.ntp_timestamp
    }

    pub fn buf_pts(&self) -> (r: u64)
        ensures
            r == self.buf_pts,
    {
        self.buf_pts
    }

    pub fn duration(&self) -> (r: u64)
        ensures
            r == self.duration,
    {
        self.duration
    }
}

/// One frame of audio in a batch.
#[derive(Debug)]
pub struct AudioFrameMeta {
    pub base_meta: BaseMeta,
}

impl AudioFrameMeta {
    pub fn base_meta(&self) -> (r: &BaseMeta)
        ensures
            *r == self.base_meta,
    {
        &self.base_meta
    }

    /// The header of the record, to be changed in place.
    pub fn base_meta_mut(&mut self) -> (r: &mut BaseMeta)
        ensures
            *r == old(self).base_meta,
            final(self).base_meta == *final(r),
    {
        &mut self.base_meta
    }
}

} // verus!
