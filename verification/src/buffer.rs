//! The boundary with the pipeline: a buffer that travels between stages and
//! may carry the metadata of a batch.

use crate::batch::BatchMeta;
use vstd::prelude::*;

verus! {

/// A buffer of the pipeline that may carry the metadata of a batch.
pub trait BufferExt {
    /// What the buffer carries, as the batch that it is tagged with, if it
    /// is tagged with one.
    spec fn tagged(&self) -> Option<BatchMeta>;

    /// The metadata of the batch that the buffer is tagged with, to be
    /// read and changed in place, or `None` where the buffer carries none.
    fn get_nvds_batch_meta(&mut self) -> (r: Option<&mut BatchMeta>)
        ensures
            r is Some <==> old(self).tagged() is Some,
            r is Some ==> *r.unwrap() == old(self).tagged().unwrap(),
            r is Some ==> final(self).tagged() == Some(*final(r.unwrap())),
            r is None ==> final(self).tagged() is None,
    ;
}

/// A buffer as a stage hands it on: its bytes, and the metadata of the
/// batch that it is tagged with.
pub struct Buffer {
    pub data: Vec<u8>,
    pub batch_meta: Option<BatchMeta>,
}

impl Buffer {
    /// A buffer with the bytes `data` that carries no metadata.
    pub fn new(data: Vec<u8>) -> (r: Buffer)
        ensures
            r.data == data,
            r.batch_meta is None,
    {
        Buffer { data, batch_meta: None }
    }

    /// Tags the buffer with `batch_meta` and returns the metadata that it
    /// carried before.
    pub fn attach(&mut self, batch_meta: BatchMeta) -> (r: Option<BatchMeta>)
        ensures
            r == old(self).batch_meta,
            final(self).batch_meta == Some(batch_meta),
            final(self).data == old(self).data,
    {
        let mut carried = Some(batch_meta);
        core::mem::swap(&mut self.batch_meta, &mut carried);
        carried
    }

    /// Takes the metadata off the buffer and returns it.
    pub fn detach(&mut self) -> (r: Option<BatchMeta>)
        ensures
            r == old(self).batch_meta,
            final(self).batch_meta is None,
            final(self).data == old(self).data,
    {
        let mut carried = None;
        core::mem::swap(&mut self.batch_meta, &mut carried);
        carried
    }
}

impl BufferExt for Buffer {
    open spec fn tagged(&self) -> Option<BatchMeta> {
        self.batch_meta
    }

    fn get_nvds_batch_meta(&mut self) -> (r: Option<&mut BatchMeta>) {
        self.batch_meta.as_mut()
    }
}

} // verus!
