//! User records: the slot by which any level of the hierarchy carries a
//! payload of a kind that the model does not know.

use crate::base::BaseMeta;
use crate::meta_type::{BaseMetaType, MetaType};
use crate::osd::duplicate_values;
use crate::preprocess::{PreProcessBatchMeta, PreProcessBatchMetaView};
use vstd::prelude::*;

verus! {

/// The payload of a user record. Each payload knows how to make a copy of
/// itself; releasing the record drops it.
#[derive(Debug)]
pub enum UserPayload {
    /// The result of pre-processing a batch.
    PreProcessBatch(PreProcessBatchMeta),
    /// Bytes whose meaning only the stage that attached them knows.
    Custom(Vec<u8>),
}

/// What a [`UserPayload`] holds.
pub enum UserPayloadView {
    PreProcessBatch(PreProcessBatchMetaView),
    Custom(Seq<u8>),
}

impl View for UserPayload {
    type V = UserPayloadView;

    open spec fn view(&self) -> UserPayloadView {
        match self {
            UserPayload::PreProcessBatch(m) => UserPayloadView::PreProcessBatch(m@),
            UserPayload::Custom(b) => UserPayloadView::Custom(b@),
        }
    }
}

impl UserPayload {
    /// A payload of its own that holds what this one holds.
    pub fn duplicate(&self) -> (r: UserPayload)
        ensures
            r@ == self@,
    {
        match self {
            UserPayload::PreProcessBatch(m) => UserPayload::PreProcessBatch(m.duplicate()),
            UserPayload::Custom(b) => UserPayload::Custom(duplicate_values(b)),
        }
    }
}

/// A record that carries a payload.
#[derive(Debug)]
pub struct UserMeta {
    pub base_meta: BaseMeta,
    pub user_meta_data: Option<UserPayload>,
}

/// What a [`UserMeta`] holds.
pub struct UserMetaView {
    pub base_meta: BaseMeta,
    pub user_meta_data: Option<UserPayloadView>,
}

impl View for UserMeta {
    type V = UserMetaView;

    open spec fn view(&self) -> UserMetaView {
        UserMetaView {
            base_meta: self.base_meta,
            user_meta_data: match self.user_meta_data {
                Some(p) => Some(p@),
                None => None,
            },
        }
    }
}

impl UserMetaView {
    /// Validity of a user record: one that holds a payload carries copy and
    /// release behaviour.
    pub open spec fn wf(&self) -> bool {
        self.user_meta_data is Some ==> self.base_meta.copy_func && self.base_meta.release_func
    }
}

impl UserMeta {
    /// The fresh user record: no payload.
    pub open spec fn fresh() -> UserMetaView {
        UserMetaView {
            base_meta: BaseMeta::fresh(MetaType::Base(BaseMetaType::UserMeta)),
            user_meta_data: None,
        }
    }

    /// The user record of kind `meta_type` that holds `payload`.
    pub open spec fn bound(meta_type: MetaType, payload: UserPayloadView) -> UserMetaView {
        UserMetaView {
            base_meta: BaseMeta {
                meta_type,
                batch_meta: true,
                user_context: 0,
                copy_func: true,
                release_func: true,
            },
            user_meta_data: Some(payload),
        }
    }

    /// The fresh user record.
    pub fn empty() -> (r: UserMeta)
        ensures
            r@ == UserMeta::fresh(),
            r@.wf(),
    {
        UserMeta {
            base_meta: BaseMeta::new(MetaType::Base(BaseMetaType::UserMeta)),
            user_meta_data: None,
        }
    }

    /// The user record of kind `meta_type` that holds `meta_data`, with copy
    /// and release behaviour bound to it.
    pub fn with_payload(meta_type: MetaType, meta_data: UserPayload) -> (r: UserMeta)
        ensures
            r@ == UserMeta::bound(meta_type, meta_data@),
            r@.wf(),
    {
        UserMeta {
            base_meta: BaseMeta {
                meta_type,
                batch_meta: true,
                user_context: 0,
                copy_func: true,
                release_func: true,
            },
            user_meta_data: Some(meta_data),
        }
    }

    pub fn base_meta(&self) -> (r: &BaseMeta)
        ensures
            *r == self.base_meta,
    {
        &self.base_meta
    }

    /// The payload, or `None` where the record holds none.
    pub fn user_meta_data(&self) -> (r: Option<&UserPayload>)
        ensures
            r is Some <==> self.user_meta_data is Some,
            r is Some ==> *r.unwrap() == self.user_meta_data.unwrap(),
    {
        self.user_meta_data.as_ref()
    }

    /// The result of pre-processing that the record holds. The kind of the
    /// record is tested first: a record of another kind gives `None`
    /// whatever it holds.
    pub fn preprocess_batch_meta(&self) -> (r: Option<&PreProcessBatchMeta>)
        ensures
            r is Some <==> (self.base_meta.meta_type == MetaType::Base(
                BaseMetaType::PreprocessBatchMeta,
            ) && self.user_meta_data is Some
                && self.user_meta_data.unwrap() is PreProcessBatch),
            r is Some ==> *r.unwrap() == self.user_meta_data.unwrap()->PreProcessBatch_0,
    {
        if self.base_meta.meta_type == MetaType::Base(BaseMetaType::PreprocessBatchMeta) {
            match &self.user_meta_data {
                Some(UserPayload::PreProcessBatch(m)) => Some(m),
                _ => None,
            }
        } else {
            None
        }
    }

    /// A record of its own that holds what this one holds, with a payload of
    /// its own.
    pub fn duplicate(&self) -> (r: UserMeta)
        ensures
            r@ == self@,
    {
        UserMeta {
            base_meta: self.base_meta,
            user_meta_data: match &self.user_meta_data {
                Some(p) => Some(p.duplicate()),
                None => None,
            },
        }
    }
}

} // verus!
