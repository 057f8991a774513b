//! Decoding of records into typed data.

use vstd::prelude::*;
use crate::DriError;
use crate::constants::dri_types::{DriMainType, PhdbClass, PhdbSubrecordType};
use crate::decode::physiological::{
    decode_physiological,
    spec_decode_physiological,
    PHDB_SUBRECORD_SIZE,
};
use crate::decode::subrecords::spec_le_u16;
use crate::decode::waveforms::{
    decode_waveforms,
    spec_decode_waveforms,
    spec_waveform_views,
    WaveformModel,
};
use crate::protocol::header::{spec_subrecord_range, DriHeader, SubrecordDescriptor};

pub mod measurement;
pub mod physiological;
pub mod status_bits;
pub mod subrecords;
pub mod waveforms;

pub use measurement::Measurement;
pub use physiological::PhysiologicalData;
pub use waveforms::WaveformData;

verus! {

/// A decoded record.
#[derive(Debug, Clone)]
pub enum DriRecord {
    /// Physiological data.
    Physiological(PhysiologicalData),
    /// The waveforms of a waveform record, in table order.
    Waveform { waveforms: Vec<WaveformData> },
}

/// Mathematical value of a decoded record.
pub enum DriRecordModel {
    Physiological(PhysiologicalData),
    Waveform(Seq<WaveformModel>),
}

impl View for DriRecord {
    type V = DriRecordModel;

    open spec fn view(&self) -> DriRecordModel {
        match self {
            DriRecord::Physiological(phys) => DriRecordModel::Physiological(*phys),
            DriRecord::Waveform { waveforms } => DriRecordModel::Waveform(
                spec_waveform_views(waveforms@),
            ),
        }
    }
}

/// Where the class stands in the classifier, the last word of a
/// physiological subrecord. Monitors are known to differ in this.
#[derive(Debug, Clone, Copy, PartialEq, Eq, Structural)]
pub enum ClassifierLayout {
    /// The class is the high nibble of the high byte: bits 12 to 15.
    HighNibble,
    /// The class is the low nibble of the high byte: bits 8 to 11.
    LowNibble,
}

impl ClassifierLayout {
    /// The class number that a classifier holds.
    pub open spec fn spec_class_bits(&self, classifier: u16) -> u8 {
        match self {
            ClassifierLayout::HighNibble => (classifier / 4096) as u8,
            ClassifierLayout::LowNibble => ((classifier / 256) % 16) as u8,
        }
    }

    /// The class number that a classifier holds.
    pub fn class_bits(&self, classifier: u16) -> (bits: u8)
        ensures
            bits == self.spec_class_bits(classifier),
            bits < 16,
    {
        match self {
            ClassifierLayout::HighNibble => (classifier / 4096) as u8,
            ClassifierLayout::LowNibble => ((classifier / 256) % 16) as u8,
        }
    }
}

/// The class of a physiological subrecord. A complete subrecord of 1088
/// bytes says it in its classifier, its last word, and a class above 3 is
/// refused. A subrecord that ends before its classifier cannot say it: it is
/// taken to be of the Basic class, the one class whose groups are decoded.
pub open spec fn spec_subrecord_class(layout: ClassifierLayout, sub: Seq<u8>) -> Result<
    PhdbClass,
    DriError,
> {
    if sub.len() < 1088 {
        Ok(PhdbClass::Basic)
    } else {
        let bits = layout.spec_class_bits(spec_le_u16(sub[1086], sub[1087]));
        match PhdbClass::spec_from_u8(bits) {
            None => Err(DriError::InvalidClass(bits)),
            Some(class) => Ok(class),
        }
    }
}

/// What a physiological record decodes to. The first subrecord is the one
/// decoded: its descriptor gives the subrecord type, `spec_subrecord_class`
/// the class. A subrecord that is cut short gives the groups it reaches; only
/// one that ends before its time stamp fails the record.
pub open spec fn spec_decode_phdb_record(
    layout: ClassifierLayout,
    descriptors: Seq<SubrecordDescriptor>,
    data: Seq<u8>,
) -> Result<Option<DriRecordModel>, DriError> {
    if descriptors.len() == 0 {
        Err(DriError::NoSubrecords)
    } else {
        match PhdbSubrecordType::spec_from_u8(descriptors[0].sr_type) {
            None => Err(DriError::InvalidSubrecordType(descriptors[0].sr_type)),
            Some(subtype) => match spec_subrecord_range(descriptors, data.len() as int, 0) {
                Err(e) => Err(e),
                Ok((start, end)) => {
                    let sub = data.subrange(start, end);
                    match spec_subrecord_class(layout, sub) {
                        Err(e) => Err(e),
                        Ok(class) => match spec_decode_physiological(sub, subtype, class) {
                            Ok(phys) => Ok(Some(DriRecordModel::Physiological(phys))),
                            Err(e) => Err(e),
                        },
                    }
                },
            },
        }
    }
}

/// What the data region of a record decodes to, by the main type of the
/// record. A waveform record without a single waveform and the main types
/// that are recognized but not decoded (alarm, network, event) give `None`.
pub open spec fn spec_decode_frame(
    layout: ClassifierLayout,
    main_type: DriMainType,
    descriptors: Seq<SubrecordDescriptor>,
    timestamp: u32,
    data: Seq<u8>,
) -> Result<Option<DriRecordModel>, DriError> {
    match main_type {
        DriMainType::Phdb => spec_decode_phdb_record(layout, descriptors, data),
        DriMainType::Wave => {
            let waveforms = spec_decode_waveforms(descriptors, timestamp, data);
            if waveforms.len() == 0 {
                Ok(None)
            } else {
                Ok(Some(DriRecordModel::Waveform(waveforms)))
            }
        },
        _ => Ok(None),
    }
}

/// Whether the result of decoding has the given value.
pub open spec fn spec_decoded_as(
    result: Result<Option<DriRecord>, DriError>,
    model: Result<Option<DriRecordModel>, DriError>,
) -> bool {
    match model {
        Ok(Some(record)) => result matches Ok(Some(r)) && r@ == record,
        Ok(None) => result matches Ok(None),
        Err(e) => result matches Err(err) && err == e,
    }
}

/// Decoder of records.
#[derive(Debug, Clone, Copy)]
pub struct Decoder {
    /// Where the class stands in the classifier of a physiological subrecord.
    pub classifier_layout: ClassifierLayout,
}

impl Decoder {
    /// A decoder that takes the class from the high nibble of the high byte
    /// of the classifier.
    pub fn new() -> (decoder: Self)
        ensures
            decoder.classifier_layout == ClassifierLayout::HighNibble,
    {
        Self { classifier_layout: ClassifierLayout::HighNibble }
    }

    /// A decoder for monitors with the given classifier layout.
    pub fn with_classifier_layout(layout: ClassifierLayout) -> (decoder: Self)
        ensures
            decoder.classifier_layout == layout,
    {
        Self { classifier_layout: layout }
    }

    /// Decodes the data region of a record whose header is `header`.
    ///
    /// A physiological record fails with `NoSubrecords` without a subrecord,
    /// with `InvalidSubrecordType` on a type above 4, with the error of
    /// `get_subrecord_data` on a descriptor that does not point into the data,
    /// with `InvalidClass` on a classifier that holds a class above 3, and
    /// with `ShortSubrecord` on a subrecord that ends before its time stamp,
    /// in this order. Everything else succeeds: a subrecord that is cut short
    /// after its time stamp gives a record of the Basic class in which the
    /// groups it does not reach are absent.
    pub fn decode_frame(&self, header: &DriHeader, data: &[u8]) -> (result: Result<
        Option<DriRecord>,
        DriError,
    >)
        ensures
            spec_decoded_as(
                result,
                spec_decode_frame(
                    self.classifier_layout,
                    header.r_maintype,
                    header.subrecords@,
                    header.r_time,
                    data@,
                ),
            ),
    {
        match header.r_maintype {
            DriMainType::Phdb => {
                if header.subrecords.len() == 0 {
                    return Err(DriError::NoSubrecords);
                }
                let sr_type = header.subrecords[0].sr_type;
                let subtype = match PhdbSubrecordType::from_u8(sr_type) {
                    Some(subtype) => subtype,
                    None => {
                        return Err(DriError::InvalidSubrecordType(sr_type));
                    },
                };
                let sub_data = match header.get_subrecord_data(data, 0) {
                    Ok(sub_data) => sub_data,
                    Err(e) => {
                        return Err(e);
                    },
                };
                let class = if sub_data.len() < PHDB_SUBRECORD_SIZE {
                    PhdbClass::Basic
                } else {
                    let classifier = (sub_data[1086] as u16) + (sub_data[1087] as u16) * 256;
                    let class_bits = self.classifier_layout.class_bits(classifier);
                    match PhdbClass::from_u8(class_bits) {
                        Some(class) => class,
                        None => {
                            return Err(DriError::InvalidClass(class_bits));
                        },
                    }
                };
                match decode_physiological(sub_data, subtype, class) {
                    Ok(phys) => Ok(Some(DriRecord::Physiological(phys))),
                    Err(e) => Err(e),
                }
            },
            DriMainType::Wave => {
                match decode_waveforms(header, data) {
                    Ok(waveforms) => {
                        if waveforms.len() == 0 {
                            Ok(None)
                        } else {
                            Ok(Some(DriRecord::Waveform { waveforms }))
                        }
                    },
                    Err(e) => Err(e),
                }
            },
            DriMainType::Alarm => Ok(None),
            DriMainType::Network => Ok(None),
            DriMainType::Fo => Ok(None),
        }
    }
}

impl Default for Decoder {
    fn default() -> (decoder: Self)
        ensures
            decoder.classifier_layout == ClassifierLayout::HighNibble,
    {
        Self::new()
    }
}

} // verus!
