//! The header that every record carries.

use crate::meta_type::{BaseMetaType, MetaType};
use vstd::prelude::*;

verus! {

/// The common header of a record: its kind, whether it belongs to a batch, a
/// value that a stage may keep with it, and whether it carries copy and
/// release behaviour of its own.
#[derive(Clone, Copy, Debug)]
pub struct BaseMeta {
    pub meta_type: MetaType,
    pub batch_meta: bool,
    pub user_context: u64,
    pub copy_func: bool,
    pub release_func: bool,
}

impl BaseMeta {
    /// The header of a fresh pool record of kind `meta_type`.
    pub open spec fn fresh(meta_type: MetaType) -> BaseMeta {
        BaseMeta {
            meta_type,
            batch_meta: true,
            user_context: 0,
            copy_func: false,
            release_func: false,
        }
    }

    /// The header of a batch itself.
    pub open spec fn of_batch() -> BaseMeta {
        BaseMeta {
            meta_type: MetaType::Base(BaseMetaType::BatchMeta),
            batch_meta: false,
            user_context: 0,
            copy_func: false,
            release_func: false,
        }
    }

    /// The header of a fresh pool record of kind `meta_type`.
    pub fn new(meta_type: MetaType) -> (r: BaseMeta)
        ensures
            r == BaseMeta::fresh(meta_type),
    {
        BaseMeta {
            meta_type,
            batch_meta: true,
            user_context: 0,
            copy_func: false,
            release_func: false,
        }
    }

    /// The header of a batch itself.
    pub fn new_batch() -> (r: BaseMeta)
        ensures
            r == BaseMeta::of_batch(),
    {
        BaseMeta {
            meta_type: MetaType::Base(BaseMetaType::BatchMeta),
            batch_meta: false,
            user_context: 0,
            copy_func: false,
            release_func: false,
        }
    }

    /// Whether the record belongs to a batch. This holds of every pool
    /// record, and not of the header of a batch itself.
    pub fn batch_meta(&self) -> (r: bool)
        ensures
            r == self.batch_meta,
    {
        self.batch_meta
    }

    /// The kind of the record.
    pub fn meta_type(&self) -> (r: MetaType)
        ensures
            r == self.meta_type,
    {
        self.meta_type
    }

    /// The value that a stage keeps with the record. The model does not
    /// interpret it.
    pub fn user_context(&self) -> (r: u64)
        ensures
            r == self.user_context,
    {
        self.user_context
    }

    /// Whether the record carries copy behaviour of its own.
    pub fn has_copy_func(&self) -> (r: bool)
        ensures
            r == self.copy_func,
    {
        self.copy_func
    }

    /// Whether the record carries release behaviour of its own.
    pub fn has_release_func(&self) -> (r: bool)
        ensures
            r == self.release_func,
    {
        self.release_func
    }
}

} // verus!
