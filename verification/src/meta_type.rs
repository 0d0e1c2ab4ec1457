//! Tags that identify the kind of a metadata record.

use vstd::prelude::*;
use vstd::std_specs::convert::FromSpecImpl;

verus! {

/// First numeric tag that is free for user-defined kinds. Every tag below it
/// belongs to the built-in kinds.
pub const START_USER_META: i32 = 8193;

/// The built-in record kinds.
#[derive(Clone, Copy, PartialEq, Eq, Debug, Structural)]
pub enum BaseMetaType {
    InvalidMeta,
    BatchMeta,
    FrameMeta,
    ObjMeta,
    DisplayMeta,
    ClassifierMeta,
    LabelInfoMeta,
    UserMeta,
    PayloadMeta,
    EventMsgMeta,
    OpticalFlowMeta,
    LatencyMeasurementMeta,
    TensorOutputMeta,
    InferSegmentationMeta,
    CropImageDataMeta,
    TrackerPastFrameMeta,
    AudioBatchMeta,
    AudioFrameMeta,
    PreprocessFrameMeta,
    PreprocessBatchMeta,
    CustomMsgBlob,
    ReservedMeta,
    GstCustomMeta,
    StartUserMeta,
}

impl BaseMetaType {
    /// The numeric tag of a built-in kind.
    pub open spec fn native(self) -> int {
        match self {
            BaseMetaType::InvalidMeta => -1,
            BaseMetaType::BatchMeta => 1,
            BaseMetaType::FrameMeta => 2,
            BaseMetaType::ObjMeta => 3,
            BaseMetaType::DisplayMeta => 4,
            BaseMetaType::ClassifierMeta => 5,
            BaseMetaType::LabelInfoMeta => 6,
            BaseMetaType::UserMeta => 7,
            BaseMetaType::PayloadMeta => 8,
            BaseMetaType::EventMsgMeta => 9,
            BaseMetaType::OpticalFlowMeta => 10,
            BaseMetaType::LatencyMeasurementMeta => 11,
            BaseMetaType::TensorOutputMeta => 12,
            BaseMetaType::InferSegmentationMeta => 13,
            BaseMetaType::CropImageDataMeta => 14,
            BaseMetaType::TrackerPastFrameMeta => 15,
            BaseMetaType::AudioBatchMeta => 16,
            BaseMetaType::AudioFrameMeta => 17,
            BaseMetaType::PreprocessFrameMeta => 18,
            BaseMetaType::PreprocessBatchMeta => 19,
            BaseMetaType::CustomMsgBlob => 20,
            BaseMetaType::ReservedMeta => 4095,
            BaseMetaType::GstCustomMeta => 4096,
            BaseMetaType::StartUserMeta => 8193,
        }
    }

    /// Whether `value` is the numeric tag of some built-in kind.
    pub open spec fn is_native(value: int) -> bool {
        exists|t: BaseMetaType| #[trigger] t.native() == value
    }

    /// The numeric tag of this kind.
    pub fn to_native(self) -> (r: i32)
        ensures
            r == self.native(),
    {
        match self {
            BaseMetaType::InvalidMeta => -1,
            BaseMetaType::BatchMeta => 1,
            BaseMetaType::FrameMeta => 2,
            BaseMetaType::ObjMeta => 3,
            BaseMetaType::DisplayMeta => 4,
            BaseMetaType::ClassifierMeta => 5,
            BaseMetaType::LabelInfoMeta => 6,
            BaseMetaType::UserMeta => 7,
            BaseMetaType::PayloadMeta => 8,
            BaseMetaType::EventMsgMeta => 9,
            BaseMetaType::OpticalFlowMeta => 10,
            BaseMetaType::LatencyMeasurementMeta => 11,
            BaseMetaType::TensorOutputMeta => 12,
            BaseMetaType::InferSegmentationMeta => 13,
            BaseMetaType::CropImageDataMeta => 14,
            BaseMetaType::TrackerPastFrameMeta => 15,
            BaseMetaType::AudioBatchMeta => 16,
            BaseMetaType::AudioFrameMeta => 17,
            BaseMetaType::PreprocessFrameMeta => 18,
            BaseMetaType::PreprocessBatchMeta => 19,
            BaseMetaType::CustomMsgBlob => 20,
            BaseMetaType::ReservedMeta => 4095,
            BaseMetaType::GstCustomMeta => 4096,
            BaseMetaType::StartUserMeta => 8193,
        }
    }

    /// The built-in kind whose numeric tag is `value`, if there is one.
    pub fn from_native(value: i32) -> (r: Option<BaseMetaType>)
        ensures
            match r {
                Some(t) => t.native() == value,
                None => !Self::is_native(value as int),
            },
    {
        if value == -1 {
            Some(BaseMetaType::InvalidMeta)
        } else if value == 1 {
            Some(BaseMetaType::BatchMeta)
        } else if value == 2 {
            Some(BaseMetaType::FrameMeta)
        } else if value == 3 {
            Some(BaseMetaType::ObjMeta)
        } else if value == 4 {
            Some(BaseMetaType::DisplayMeta)
        } else if value == 5 {
            Some(BaseMetaType::ClassifierMeta)
        } else if value == 6 {
            Some(BaseMetaType::LabelInfoMeta)
        } else if value == 7 {
            Some(BaseMetaType::UserMeta)
        } else if value == 8 {
            Some(BaseMetaType::PayloadMeta)
        } else if value == 9 {
            Some(BaseMetaType::EventMsgMeta)
        } else if value == 10 {
            Some(BaseMetaType::OpticalFlowMeta)
        } else if value == 11 {
            Some(BaseMetaType::LatencyMeasurementMeta)
        } else if value == 12 {
            Some(BaseMetaType::TensorOutputMeta)
        } else if value == 13 {
            Some(BaseMetaType::InferSegmentationMeta)
        } else if value == 14 {
            Some(BaseMetaType::CropImageDataMeta)
        } else if value == 15 {
            Some(BaseMetaType::TrackerPastFrameMeta)
        } else if value == 16 {
            Some(BaseMetaType::AudioBatchMeta)
        } else if value == 17 {
            Some(BaseMetaType::AudioFrameMeta)
        } else if value == 18 {
            Some(BaseMetaType::PreprocessFrameMeta)
        } else if value == 19 {
            Some(BaseMetaType::PreprocessBatchMeta)
        } else if value == 20 {
            Some(BaseMetaType::CustomMsgBlob)
        } else if value == 4095 {
            Some(BaseMetaType::ReservedMeta)
        } else if value == 4096 {
            Some(BaseMetaType::GstCustomMeta)
        } else if value == 8193 {
            Some(BaseMetaType::StartUserMeta)
        } else {
            None
        }
    }
}

/// The kind of a record: one of the built-in kinds, or a user-defined kind
/// with its numeric tag.
#[derive(Clone, Copy, PartialEq, Eq, Debug, Structural)]
pub enum MetaType {
    Base(BaseMetaType),
    User(i32),
}

impl MetaType {
    /// The kind that a numeric tag stands for. Tags from
    /// [`START_USER_META`] on are user-defined kinds. A smaller tag is the
    /// built-in kind with that number; a smaller tag that no built-in kind has
    /// is the invalid kind.
    pub open spec fn of_native(value: i32) -> MetaType {
        if value >= START_USER_META {
            MetaType::User(value)
        } else if BaseMetaType::is_native(value as int) {
            MetaType::Base(choose|t: BaseMetaType| #[trigger] t.native() == value)
        } else {
            MetaType::Base(BaseMetaType::InvalidMeta)
        }
    }

    /// The numeric tag of a kind.
    pub open spec fn native(self) -> int {
        match self {
            MetaType::Base(t) => t.native(),
            MetaType::User(v) => v as int,
        }
    }

    /// Whether this is a user-defined kind in the range kept for them.
    pub open spec fn is_user_defined(self) -> bool {
        match self {
            MetaType::Base(_) => false,
            MetaType::User(v) => v >= START_USER_META,
        }
    }

    /// The numeric tag of this kind.
    pub fn to_native_meta_type(self) -> (r: i32)
        ensures
            r == self.native(),
    {
        match self {
            MetaType::Base(x) => x.to_native(),
            MetaType::User(x) => x,
        }
    }
}

impl From<i32> for MetaType {
    fn from(value: i32) -> (r: MetaType) {
        if value >= START_USER_META {
            MetaType::User(value)
        } else {
            match BaseMetaType::from_native(value) {
                Some(t) => {
                    proof {
                        lemma_native_injective();
                    }
                    MetaType::Base(t)
                },
                None => MetaType::Base(BaseMetaType::InvalidMeta),
            }
        }
    }
}

impl FromSpecImpl<i32> for MetaType {
    open spec fn obeys_from_spec() -> bool {
        true
    }

    open spec fn from_spec(value: i32) -> MetaType {
        MetaType::of_native(value)
    }
}

/// Two built-in kinds with the same numeric tag are the same kind.
pub proof fn lemma_native_injective()
    ensures
        forall|a: BaseMetaType, b: BaseMetaType| #[trigger]
            a.native() == #[trigger] b.native() ==> a == b,
{
}

/// A numeric tag that came from a kind gives that kind back, for every
/// built-in kind below the user range and every user-defined kind in it.
pub proof fn lemma_native_round_trip(m: MetaType)
    requires
        m.is_user_defined() || (m is Base && m.native() < START_USER_META),
    ensures
        -0x8000_0000 <= m.native() < 0x8000_0000,
        MetaType::of_native(m.native() as i32) == m,
{
    lemma_native_injective();
    match m {
        MetaType::Base(t) => {
            assert(BaseMetaType::is_native(t.native()));
        },
        MetaType::User(v) => {},
    }
}

/// A kind that came from a numeric tag gives that tag back, for every tag
/// that is a built-in kind's or lies in the user range.
pub proof fn lemma_tag_round_trip(value: i32)
    requires
        value >= START_USER_META || BaseMetaType::is_native(value as int),
    ensures
        MetaType::of_native(value).native() == value,
{
}

} // verus!
