//! A measurement as it is decoded: a scaled value, or the reason why there is
//! none.

use vstd::prelude::*;
use crate::constants::scaling::{Scale, Scaled};
use crate::constants::special_values::{get_special_value, spec_special_value, SpecialValue};
use crate::decode::subrecords::spec_le_i16;

verus! {

/// One decoded measurement field.
#[derive(Debug, Clone, Copy, PartialEq, Eq, Structural)]
pub enum Measurement {
    /// A measured value with its scale.
    Value(Scaled),
    /// No value, and the reason the monitor gave for it.
    Missing(SpecialValue),
}

impl Measurement {
    /// What a raw field decodes to: a reserved raw value gives the kind of
    /// absence it stands for, every other raw value is the measurement itself,
    /// in steps of the scale of the field.
    pub open spec fn spec_decode(raw: i16, scale: Scale) -> Measurement {
        match spec_special_value(raw) {
            Some(kind) => Measurement::Missing(kind),
            None => Measurement::Value(Scaled { raw, scale }),
        }
    }

    /// The measurement held by two bytes of a sequence, low byte first.
    pub open spec fn spec_at(data: Seq<u8>, offset: int, scale: Scale) -> Measurement {
        Self::spec_decode(spec_le_i16(data[offset], data[offset + 1]), scale)
    }

    /// The measured value, if there is one.
    pub open spec fn spec_value(&self) -> Option<Scaled> {
        match self {
            Measurement::Value(v) => Some(*v),
            Measurement::Missing(_) => None,
        }
    }

    /// The reason why there is no value, if there is none.
    pub open spec fn spec_kind(&self) -> Option<SpecialValue> {
        match self {
            Measurement::Value(_) => None,
            Measurement::Missing(kind) => Some(*kind),
        }
    }

    /// Decodes a raw field of the given scale.
    pub fn decode(raw: i16, scale: Scale) -> (r: Measurement)
        ensures
            r == Self::spec_decode(raw, scale),
    {
        match get_special_value(raw) {
            Some(kind) => Measurement::Missing(kind),
            None => Measurement::Value(Scaled { raw, scale }),
        }
    }

    /// Decodes the field that starts at `offset`.
    pub fn at(data: &[u8], offset: usize, scale: Scale) -> (r: Measurement)
        requires
            offset + 2 <= data@.len(),
        ensures
            r == Self::spec_at(data@, offset as int, scale),
    {
        let unsigned: u16 = (data[offset] as u16) + (data[offset + 1] as u16) * 256;
        let raw = if unsigned < 32768 {
            unsigned as i16
        } else {
            (unsigned as i32 - 65536) as i16
        };
        Self::decode(raw, scale)
    }

    /// The measured value, if there is one.
    pub fn value(&self) -> (r: Option<Scaled>)
        ensures
            r == self.spec_value(),
    {
        match self {
            Measurement::Value(v) => Some(*v),
            Measurement::Missing(_) => None,
        }
    }

    /// The reason why there is no value, if there is none.
    pub fn kind(&self) -> (r: Option<SpecialValue>)
        ensures
            r == self.spec_kind(),
    {
        match self {
            Measurement::Value(_) => None,
            Measurement::Missing(kind) => Some(*kind),
        }
    }
}

/// Every raw field decodes either to no value together with a kind of
/// absence, which happens exactly for the raw values at or below -32001, or to
/// the raw value in steps of its scale, with no kind.
pub proof fn lemma_measurement_decoding(raw: i16, scale: Scale)
    ensures
        raw <= -32001 ==> Measurement::spec_decode(raw, scale).spec_value() is None
            && Measurement::spec_decode(raw, scale).spec_kind() == spec_special_value(raw)
            && spec_special_value(raw) is Some,
        raw > -32001 ==> Measurement::spec_decode(raw, scale).spec_value() == Some(
            Scaled { raw, scale },
        ) && Measurement::spec_decode(raw, scale).spec_kind() is None,
        Measurement::spec_decode(raw, scale).spec_value() matches Some(v) ==> v.spec_hundredths()
            == raw * scale.spec_hundredths_per_step(),
{
}

} // verus!
