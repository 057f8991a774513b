//! Reserved measurement values that signal absence instead of a reading.

use vstd::prelude::*;

verus! {

/// Why a measurement is absent.
#[derive(Debug, Clone, Copy, PartialEq, Eq, Structural)]
pub enum SpecialValue {
    /// No valid data available.
    Invalid,
    /// Data has not been updated.
    NotUpdated,
    /// Data is below the valid range.
    UnderRange,
    /// Data is above the valid range.
    OverRange,
    /// Data has not been calibrated.
    NotCalibrated,
}

/// Every value at or below this limit is reserved.
pub const DATA_INVALID_LIMIT: i16 = -32001;

/// No valid data.
pub const DATA_INVALID: i16 = -32767;

/// Data not updated.
pub const DATA_NOT_UPDATED: i16 = -32766;

/// Data discontinuity.
pub const DATA_DISCONT: i16 = -32765;

/// Data under range.
pub const DATA_UNDER_RANGE: i16 = -32764;

/// Data over range.
pub const DATA_OVER_RANGE: i16 = -32763;

/// Data not calibrated.
pub const DATA_NOT_CALIBRATED: i16 = -32762;

/// A raw value is reserved exactly when it lies at or below the limit.
pub open spec fn spec_is_invalid(value: i16) -> bool {
    value <= DATA_INVALID_LIMIT
}

/// The kind of absence a raw value stands for, if it is reserved. Reserved
/// values without a kind of their own count as `Invalid`.
pub open spec fn spec_special_value(value: i16) -> Option<SpecialValue> {
    if value == DATA_INVALID {
        Some(SpecialValue::Invalid)
    } else if value == DATA_NOT_UPDATED {
        Some(SpecialValue::NotUpdated)
    } else if value == DATA_UNDER_RANGE {
        Some(SpecialValue::UnderRange)
    } else if value == DATA_OVER_RANGE {
        Some(SpecialValue::OverRange)
    } else if value == DATA_NOT_CALIBRATED {
        Some(SpecialValue::NotCalibrated)
    } else if value > DATA_INVALID_LIMIT {
        None
    } else {
        Some(SpecialValue::Invalid)
    }
}

/// Whether a raw value is reserved rather than a measurement.
#[verifier::when_used_as_spec(spec_is_invalid)]
pub fn is_invalid(value: i16) -> (r: bool)
    ensures
        r == spec_is_invalid(value),
{
    value <= DATA_INVALID_LIMIT
}

/// The raw value itself when it is a measurement, `None` when it is reserved.
pub fn check_valid(value: i16) -> (r: Option<i16>)
    ensures
        r == (if spec_is_invalid(value) { None } else { Some(value) }),
{
    if is_invalid(value) {
        None
    } else {
        Some(value)
    }
}

/// The kind of absence that a raw value stands for, `None` for a measurement.
#[verifier::when_used_as_spec(spec_special_value)]
pub fn get_special_value(value: i16) -> (r: Option<SpecialValue>)
    ensures
        r == spec_special_value(value),
        r is None <==> !spec_is_invalid(value),
{
    if value == DATA_INVALID {
        Some(SpecialValue::Invalid)
    } else if value == DATA_NOT_UPDATED {
        Some(SpecialValue::NotUpdated)
    } else if value == DATA_UNDER_RANGE {
        Some(SpecialValue::UnderRange)
    } else if value == DATA_OVER_RANGE {
        Some(SpecialValue::OverRange)
    } else if value == DATA_NOT_CALIBRATED {
        Some(SpecialValue::NotCalibrated)
    } else if value > DATA_INVALID_LIMIT {
        None
    } else {
        Some(SpecialValue::Invalid)
    }
}

} // verus!
