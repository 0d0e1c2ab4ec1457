//! Metadata object model of a batched media-analytics pipeline.
//!
//! A [`batch::BatchMeta`] owns one fixed-capacity pool per record kind and the
//! records themselves. Records are addressed by the index of their slot, form a
//! containment hierarchy (batch, frame, object, classifier, label, display
//! overlay) through ordered lists of slot indices, and can carry user payloads
//! that are copied and released together with the record that holds them.

pub mod access;
pub mod acquire;
pub mod audio;
pub mod base;
pub mod batch;
pub mod buffer;
pub mod census;
pub mod classifier;
pub mod copies;
pub mod copy;
pub mod display;
pub mod display_builder;
pub mod frame;
pub mod hierarchy;
pub mod kind;
pub mod laws;
pub mod link;
pub mod list;
pub mod lock;
pub mod meta_type;
pub mod node;
pub mod object;
pub mod osd;
pub mod parent;
pub mod pool;
pub mod preprocess;
pub mod record;
pub mod release;
pub mod reset;
pub mod subtree;
pub mod transplant;
pub mod user;
pub mod user_types;
