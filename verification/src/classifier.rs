//! Classifier records and the labels that they hold.

use crate::base::BaseMeta;
use crate::meta_type::{BaseMetaType, MetaType};
use vstd::prelude::*;

verus! {

/// What a stage writes into a classifier record.
#[derive(Debug)]
pub struct ClassifierData {
    pub unique_component_id: i32,
    pub classifier_type: String,
}

/// What a [`ClassifierData`] holds.
pub struct ClassifierDataView {
    pub unique_component_id: i32,
    pub classifier_type: Seq<char>,
}

impl View for ClassifierData {
    type V = ClassifierDataView;

    open spec fn view(&self) -> ClassifierDataView {
        ClassifierDataView {
            unique_component_id: self.unique_component_id,
            classifier_type: self.classifier_type@,
        }
    }
}

impl ClassifierData {
    /// The data of a fresh classifier record.
    pub open spec fn zero() -> ClassifierDataView {
        ClassifierDataView { unique_component_id: 0, classifier_type: Seq::<char>::empty() }
    }

    /// The data of a fresh classifier record.
    pub fn new() -> (r: ClassifierData)
        ensures
            r@ == ClassifierData::zero(),
    {
        ClassifierData { unique_component_id: 0, classifier_type: String::new() }
    }

    /// Data of its own that holds what this holds.
    pub fn duplicate(&self) -> (r: ClassifierData)
        ensures
            r@ == self@,
    {
        ClassifierData {
            unique_component_id: self.unique_component_id,
            classifier_type: self.classifier_type.clone(),
        }
    }
}

/// The result of one classifier on one object.
#[derive(Debug)]
pub struct ClassifierMeta {
    pub base_meta: BaseMeta,
    pub data: ClassifierData,
    pub num_labels: u32,
}

/// What a [`ClassifierMeta`] holds.
pub struct ClassifierMetaView {
    pub base_meta: BaseMeta,
    pub data: ClassifierDataView,
    pub num_labels: u32,
}

impl View for ClassifierMeta {
    type V = ClassifierMetaView;

    open spec fn view(&self) -> ClassifierMetaView {
        ClassifierMetaView {
            base_meta: self.base_meta,
            data: self.data@,
            num_labels: self.num_labels,
        }
    }
}

impl ClassifierMeta {
    /// The fresh classifier record.
    pub open spec fn fresh() -> ClassifierMetaView {
        ClassifierMetaView {
            base_meta: BaseMeta::fresh(MetaType::Base(BaseMetaType::ClassifierMeta)),
            data: ClassifierData::zero(),
            num_labels: 0,
        }
    }

    /// The fresh classifier record.
    pub fn new() -> (r: ClassifierMeta)
        ensures
            r@ == ClassifierMeta::fresh(),
    {
        ClassifierMeta {
            base_meta: BaseMeta::new(MetaType::Base(BaseMetaType::ClassifierMeta)),
            data: ClassifierData::new(),
            num_labels: 0,
        }
    }

    pub fn base_meta(&self) -> (r: &BaseMeta)
        ensures
            *r == self.base_meta,
    {
        &self.base_meta
    }

    /// Everything that a stage writes into the record.
    pub fn data(&self) -> (r: &ClassifierData)
        ensures
            *r == self.data,
    {
        &self.data
    }

    /// The number of labels in the classifier's label list.
    pub fn num_labels(&self) -> (r: u32)
        ensures
            r == self.num_labels,
    {
        self.num_labels
    }

    pub fn unique_component_id(&self) -> (r: i32)
        ensures
            r == self.data.unique_component_id,
    {
        self.data.unique_component_id
    }

    pub fn classifier_type(&self) -> (r: &String)
        ensures
            *r == self.data.classifier_type,
    {
        &self.data.classifier_type
    }
}

/// What a stage writes into a label record.
#[derive(Debug)]
pub struct LabelData {
    pub num_classes: u32,
    pub result_label: String,
    pub result_class_id: u32,
    pub label_id: u32,
    pub result_prob_bits: u32,
}

/// What a [`LabelData`] holds.
pub struct LabelDataView {
    pub num_classes: u32,
    pub result_label: Seq<char>,
    pub result_class_id: u32,
    pub label_id: u32,
    pub result_prob_bits: u32,
}

impl View for LabelData {
    type V = LabelDataView;

    open spec fn view(&self) -> LabelDataView {
        LabelDataView {
            num_classes: self.num_classes,
            result_label: self.result_label@,
            result_class_id: self.result_class_id,
            label_id: self.label_id,
            result_prob_bits: self.result_prob_bits,
        }
    }
}

impl LabelData {
    /// The data of a fresh label record.
    pub open spec fn zero() -> LabelDataView {
        LabelDataView {
            num_classes: 0,
            result_label: Seq::<char>::empty(),
            result_class_id: 0,
            label_id: 0,
            result_prob_bits: 0,
        }
    }

    /// The data of a fresh label record.
    pub fn new() -> (r: LabelData)
        ensures
            r@ == LabelData::zero(),
    {
        LabelData {
            num_classes: 0,
            result_label: String::new(),
            result_class_id: 0,
            label_id: 0,
            result_prob_bits: 0,
        }
    }

    /// Data of its own that holds what this holds.
    pub fn duplicate(&self) -> (r: LabelData)
        ensures
            r@ == self@,
    {
        LabelData {
            num_classes: self.num_classes,
            result_label: self.result_label.clone(),
            result_class_id: self.result_class_id,
            label_id: self.label_id,
            result_prob_bits: self.result_prob_bits,
        }
    }
}

/// One label that a classifier gave.
#[derive(Debug)]
pub struct LabelInfo {
    pub base_meta: BaseMeta,
    pub data: LabelData,
}

/// What a [`LabelInfo`] holds.
pub struct LabelInfoView {
    pub base_meta: BaseMeta,
    pub data: LabelDataView,
}

impl View for LabelInfo {
    type V = LabelInfoView;

    open spec fn view(&self) -> LabelInfoView {
        LabelInfoView { base_meta: self.base_meta, data: self.data@ }
    }
}

impl LabelInfo {
    /// The fresh label record.
    pub open spec fn fresh() -> LabelInfoView {
        LabelInfoView {
            base_meta: BaseMeta::fresh(MetaType::Base(BaseMetaType::LabelInfoMeta)),
            data: LabelData::zero(),
        }
    }

    /// The fresh label record.
    pub fn new() -> (r: LabelInfo)
        ensures
            r@ == LabelInfo::fresh(),
    {
        LabelInfo {
            base_meta: BaseMeta::new(MetaType::Base(BaseMetaType::LabelInfoMeta)),
            data: LabelData::new(),
        }
    }

    pub fn base_meta(&self) -> (r: &BaseMeta)
        ensures
            *r == self.base_meta,
    {
        &self.base_meta
    }

    /// Everything that a stage writes into the record.
    pub fn data(&self) -> (r: &LabelData)
        ensures
            *r == self.data,
    {
        &self.data
    }

    pub fn num_classes(&self) -> (r: u32)
        ensures
            r == self.data.num_classes,
    {
        self.data.num_classes
    }

    pub fn result_label(&self) -> (r: &String)
        ensures
            *r == self.data.result_label,
    {
        &self.data.result_label
    }

    pub fn result_class_id(&self) -> (r: u32)
        ensures
            r == self.data.result_class_id,
    {
        self.data.result_class_id
    }

    pub fn label_id(&self) -> (r: u32)
        ensures
            r == self.data.label_id,
    {
        self.data.label_id
    }

    /// The bit pattern of the probability of the result.
    pub fn result_prob_bits(&self) -> (r: u32)
        ensures
            r == self.data.result_prob_bits,
    {
        self.data.result_prob_bits
    }
}

} // verus!
