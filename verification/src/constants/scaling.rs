//! Fixed-point scales of the physiological measurements.
//!
//! A measurement travels as a signed 16-bit count of steps. The scale says how
//! large one step is: a whole unit, a tenth or a hundredth of it. Scaled
//! values are kept exact, as a count together with its scale.

use vstd::prelude::*;
use crate::constants::special_values::{is_invalid, spec_is_invalid};

verus! {

/// Size of one step of a stored value.
#[derive(Debug, Clone, Copy, PartialEq, Eq, Structural)]
pub enum Scale {
    /// One step is one unit: rates are stored unscaled.
    Unit,
    /// One step is a tenth of a unit.
    Tenth,
    /// One step is a hundredth of a unit.
    Hundredth,
}

impl Scale {
    /// Steps that make up one unit.
    pub open spec fn spec_steps_per_unit(&self) -> int {
        match self {
            Scale::Unit => 1,
            Scale::Tenth => 10,
            Scale::Hundredth => 100,
        }
    }

    /// Hundredths of a unit in one step.
    pub open spec fn spec_hundredths_per_step(&self) -> int {
        match self {
            Scale::Unit => 100,
            Scale::Tenth => 10,
            Scale::Hundredth => 1,
        }
    }

    /// Steps that make up one unit: 1, 10 or 100.
    pub fn steps_per_unit(&self) -> (r: u16)
        ensures
            r == self.spec_steps_per_unit(),
            r * self.spec_hundredths_per_step() == 100,
    {
        match self {
            Scale::Unit => 1,
            Scale::Tenth => 10,
            Scale::Hundredth => 100,
        }
    }
}

/// Percentages are stored in hundredths of a percent.
pub const SCALE_PERCENT_100: Scale = Scale::Hundredth;

/// Temperatures are stored in hundredths of a degree Celsius.
pub const SCALE_TEMP_100: Scale = Scale::Hundredth;

/// Blood pressures are stored in hundredths of a mmHg.
pub const SCALE_PRESSURE_100: Scale = Scale::Hundredth;

/// ST levels are stored in hundredths of a millimetre.
pub const SCALE_ST_100: Scale = Scale::Hundredth;

/// Flows are stored in tenths of a litre per minute.
pub const SCALE_FLOW_10: Scale = Scale::Tenth;

/// Tidal volumes are stored in tenths of a millilitre.
pub const SCALE_VOLUME_10: Scale = Scale::Tenth;

/// Compliance is stored in hundredths of a ml/cmH2O.
pub const SCALE_COMPLIANCE_100: Scale = Scale::Hundredth;

/// MAC is stored in hundredths.
pub const SCALE_MAC_100: Scale = Scale::Hundredth;

/// Airway pressures are stored in hundredths of a cmH2O.
pub const SCALE_AWP_100: Scale = Scale::Hundredth;

/// The infrared amplitude of SpO2 is stored in tenths of a percent.
pub const SCALE_IR_AMP_10: Scale = Scale::Tenth;

/// Impedance is stored in hundredths of an ohm.
pub const SCALE_IMPEDANCE_100: Scale = Scale::Hundredth;

/// Minute volumes are stored in hundredths of a litre per minute.
pub const SCALE_MINUTE_VOLUME_100: Scale = Scale::Hundredth;

/// Heart and respiration rates are stored unscaled.
pub const SCALE_RATE_1: Scale = Scale::Unit;

/// A scaled value: `raw` steps of the size that `scale` gives, that is
/// `raw / scale.steps_per_unit()` units.
#[derive(Debug, Clone, Copy, PartialEq, Eq, Structural)]
pub struct Scaled {
    pub raw: i16,
    pub scale: Scale,
}

impl Scaled {
    /// The value in hundredths of a unit, which is exact for every scale.
    pub open spec fn spec_hundredths(&self) -> int {
        self.raw * self.scale.spec_hundredths_per_step()
    }

    /// The value in hundredths of a unit, which is exact for every scale.
    pub fn hundredths(&self) -> (r: i32)
        ensures
            r == self.spec_hundredths(),
    {
        match self.scale {
            Scale::Unit => (self.raw as i32) * 100,
            Scale::Tenth => (self.raw as i32) * 10,
            Scale::Hundredth => self.raw as i32,
        }
    }
}

/// Attaches a scale to a value that may be missing.
pub fn scale_i16(value: Option<i16>, scale: Scale) -> (r: Option<Scaled>)
    ensures
        r == match value {
            Some(raw) => Some(Scaled { raw, scale }),
            None => None,
        },
{
    match value {
        Some(raw) => Some(Scaled { raw, scale }),
        None => None,
    }
}

/// Attaches a scale to a raw value, unless the raw value is reserved.
pub fn scale_valid_i16(value: i16, scale: Scale) -> (r: Option<Scaled>)
    ensures
        r == (if spec_is_invalid(value) {
            None
        } else {
            Some(Scaled { raw: value, scale })
        }),
{
    if is_invalid(value) {
        None
    } else {
        Some(Scaled { raw: value, scale })
    }
}

} // verus!
