//! Status flags of the parameter groups, one structure for each kind of group.

use vstd::prelude::*;

verus! {

/// Status flags of the ECG group.
#[derive(Debug, Clone, Copy, PartialEq, Eq, Structural)]
pub struct EcgStatus {
    /// The module exists (bit 0).
    pub exists: bool,
    /// The module is active (bit 1).
    pub active: bool,
    /// Asystole (bit 2).
    pub asystole: bool,
    /// Noise (bit 7).
    pub noise: bool,
    /// Artifact (bit 8).
    pub artifact: bool,
    /// Learning (bit 9).
    pub learning: bool,
    /// Pacer on (bit 10).
    pub pacer_on: bool,
    /// Channel 1 off (bit 11).
    pub channel1_off: bool,
    /// Channel 2 off (bit 12).
    pub channel2_off: bool,
    /// Channel 3 off (bit 13).
    pub channel3_off: bool,
}

impl EcgStatus {
    /// The flags that a status word holds.
    pub open spec fn spec_from_status(status: u32) -> Self {
        EcgStatus {
            exists: status & 0x1 != 0,
            active: status & 0x2 != 0,
            asystole: status & 0x4 != 0,
            noise: status & 0x80 != 0,
            artifact: status & 0x100 != 0,
            learning: status & 0x200 != 0,
            pacer_on: status & 0x400 != 0,
            channel1_off: status & 0x800 != 0,
            channel2_off: status & 0x1000 != 0,
            channel3_off: status & 0x2000 != 0,
        }
    }

    /// Reads the flags out of a status word.
    pub fn from_status(status: u32) -> (r: Self)
        ensures
            r == Self::spec_from_status(status),
    {
        Self {
            exists: (status & 0x1) != 0,
            active: (status & 0x2) != 0,
            asystole: (status & 0x4) != 0,
            noise: (status & 0x80) != 0,
            artifact: (status & 0x100) != 0,
            learning: (status & 0x200) != 0,
            pacer_on: (status & 0x400) != 0,
            channel1_off: (status & 0x800) != 0,
            channel2_off: (status & 0x1000) != 0,
            channel3_off: (status & 0x2000) != 0,
        }
    }
}

impl Default for EcgStatus {
    /// Every flag clear.
    fn default() -> (r: Self)
        ensures
            !r.exists,
            !r.active,
            !r.asystole,
            !r.noise,
            !r.artifact,
            !r.learning,
            !r.pacer_on,
            !r.channel1_off,
            !r.channel2_off,
            !r.channel3_off,
    {
        Self {
            exists: false,
            active: false,
            asystole: false,
            noise: false,
            artifact: false,
            learning: false,
            pacer_on: false,
            channel1_off: false,
            channel2_off: false,
            channel3_off: false,
        }
    }
}

/// Status flags of the NIBP group. The mode flags travel in the label of the group.
#[derive(Debug, Clone, Copy, PartialEq, Eq, Structural)]
pub struct NibpStatus {
    /// The module exists (status bit 0).
    pub exists: bool,
    /// The module is active (status bit 1).
    pub active: bool,
    /// Automatic mode (label bit 3).
    pub auto_mode: bool,
    /// Stat mode (label bit 4).
    pub stat_mode: bool,
    /// A measurement is running (label bit 5).
    pub measuring: bool,
    /// Stasis on (label bit 6).
    pub stasis_on: bool,
    /// Calibrating (label bit 7).
    pub calibrating: bool,
    /// The data is older than 60 seconds (label bit 8).
    pub data_older_than_60s: bool,
}

impl NibpStatus {
    /// The flags that the header of the group holds: existence and activity
    /// from bits 0 and 1 of the status word, the mode flags from the label.
    pub open spec fn spec_from_label(status: u32, label: u16) -> Self {
        NibpStatus {
            exists: status & 0x1 != 0,
            active: status & 0x2 != 0,
            auto_mode: label & 0x8 != 0,
            stat_mode: label & 0x10 != 0,
            measuring: label & 0x20 != 0,
            stasis_on: label & 0x40 != 0,
            calibrating: label & 0x80 != 0,
            data_older_than_60s: label & 0x100 != 0,
        }
    }

    /// Reads existence and activity out of the status word of the group and
    /// the mode flags out of its label.
    pub fn from_label(status: u32, label: u16) -> (r: Self)
        ensures
            r == Self::spec_from_label(status, label),
    {
        Self {
            exists: (status & 0x1) != 0,
            active: (status & 0x2) != 0,
            auto_mode: (label & 0x8) != 0,
            stat_mode: (label & 0x10) != 0,
            measuring: (label & 0x20) != 0,
            stasis_on: (label & 0x40) != 0,
            calibrating: (label & 0x80) != 0,
            data_older_than_60s: (label & 0x100) != 0,
        }
    }
}

impl Default for NibpStatus {
    /// Every flag clear.
    fn default() -> (r: Self)
        ensures
            !r.exists,
            !r.active,
            !r.auto_mode,
            !r.stat_mode,
            !r.measuring,
            !r.stasis_on,
            !r.calibrating,
            !r.data_older_than_60s,
    {
        Self {
            exists: false,
            active: false,
            auto_mode: false,
            stat_mode: false,
            measuring: false,
            stasis_on: false,
            calibrating: false,
            data_older_than_60s: false,
        }
    }
}

/// Status flags of the CO2 group.
#[derive(Debug, Clone, Copy, PartialEq, Eq, Structural)]
pub struct Co2Status {
    /// The module exists (bit 0).
    pub exists: bool,
    /// The module is active (bit 1).
    pub active: bool,
    /// Apnea detected from CO2 (bit 2).
    pub apnea_co2: bool,
    /// The sensor is being calibrated (bit 3).
    pub calibrating_sensor: bool,
    /// The sensor is being zeroed (bit 4).
    pub zeroing_sensor: bool,
    /// Occlusion (bit 5).
    pub occlusion: bool,
    /// Air leak (bit 6).
    pub air_leak: bool,
    /// Apnea detected from respiration (bit 7).
    pub apnea_from_resp: bool,
    /// Apnea detection is switched off (bit 8).
    pub apnea_deactivated: bool,
    /// Wet condition (bit 9).
    pub wet_condition: bool,
}

impl Co2Status {
    /// The flags that a status word holds.
    pub open spec fn spec_from_status(status: u32) -> Self {
        Co2Status {
            exists: status & 0x1 != 0,
            active: status & 0x2 != 0,
            apnea_co2: status & 0x4 != 0,
            calibrating_sensor: status & 0x8 != 0,
            zeroing_sensor: status & 0x10 != 0,
            occlusion: status & 0x20 != 0,
            air_leak: status & 0x40 != 0,
            apnea_from_resp: status & 0x80 != 0,
            apnea_deactivated: status & 0x100 != 0,
            wet_condition: status & 0x200 != 0,
        }
    }

    /// Reads the flags out of a status word.
    pub fn from_status(status: u32) -> (r: Self)
        ensures
            r == Self::spec_from_status(status),
    {
        Self {
            exists: (status & 0x1) != 0,
            active: (status & 0x2) != 0,
            apnea_co2: (status & 0x4) != 0,
            calibrating_sensor: (status & 0x8) != 0,
            zeroing_sensor: (status & 0x10) != 0,
            occlusion: (status & 0x20) != 0,
            air_leak: (status & 0x40) != 0,
            apnea_from_resp: (status & 0x80) != 0,
            apnea_deactivated: (status & 0x100) != 0,
            wet_condition: (status & 0x200) != 0,
        }
    }
}

impl Default for Co2Status {
    /// Every flag clear.
    fn default() -> (r: Self)
        ensures
            !r.exists,
            !r.active,
            !r.apnea_co2,
            !r.calibrating_sensor,
            !r.zeroing_sensor,
            !r.occlusion,
            !r.air_leak,
            !r.apnea_from_resp,
            !r.apnea_deactivated,
            !r.wet_condition,
    {
        Self {
            exists: false,
            active: false,
            apnea_co2: false,
            calibrating_sensor: false,
            zeroing_sensor: false,
            occlusion: false,
            air_leak: false,
            apnea_from_resp: false,
            apnea_deactivated: false,
            wet_condition: false,
        }
    }
}

/// Status flags of the SpO2 group.
#[derive(Debug, Clone, Copy, PartialEq, Eq, Structural)]
pub struct Spo2Status {
    /// The module exists (bit 0).
    pub exists: bool,
    /// The module is active (bit 1).
    pub active: bool,
}

impl Spo2Status {
    /// The flags that a status word holds.
    pub open spec fn spec_from_status(status: u32) -> Self {
        Spo2Status {
            exists: status & 0x1 != 0,
            active: status & 0x2 != 0,
        }
    }

    /// Reads the flags out of a status word.
    pub fn from_status(status: u32) -> (r: Self)
        ensures
            r == Self::spec_from_status(status),
    {
        Self {
            exists: (status & 0x1) != 0,
            active: (status & 0x2) != 0,
        }
    }
}

impl Default for Spo2Status {
    /// Every flag clear.
    fn default() -> (r: Self)
        ensures
            !r.exists,
            !r.active,
    {
        Self {
            exists: false,
            active: false,
        }
    }
}

/// Conditions to which tidal volumes are corrected.
#[derive(Debug, Clone, Copy, PartialEq, Eq, Structural)]
pub enum TidalVolumeBase {
    /// Ambient temperature and pressure, dry.
    Atpd,
    /// Normal temperature and pressure, dry.
    Ntpd,
    /// Body temperature and pressure, saturated.
    Btps,
    /// Standard temperature and pressure, dry.
    Stpd,
}

impl TidalVolumeBase {
    /// The convention that bits 8 and 9 of a status word select.
    pub open spec fn spec_from_status(status: u32) -> Self {
        let bits = (status >> 8) & 0x03;
        if bits == 0 {
            TidalVolumeBase::Atpd
        } else if bits == 1 {
            TidalVolumeBase::Ntpd
        } else if bits == 2 {
            TidalVolumeBase::Btps
        } else {
            TidalVolumeBase::Stpd
        }
    }

    /// Reads the convention out of bits 8 and 9 of a status word.
    pub fn from_status(status: u32) -> (r: Self)
        ensures
            r == Self::spec_from_status(status),
    {
        let bits = (status >> 8) & 0x03;
        if bits == 0 {
            TidalVolumeBase::Atpd
        } else if bits == 1 {
            TidalVolumeBase::Ntpd
        } else if bits == 2 {
            TidalVolumeBase::Btps
        } else {
            TidalVolumeBase::Stpd
        }
    }
}

impl Default for TidalVolumeBase {
    /// Ambient temperature and pressure, dry.
    fn default() -> (r: Self)
        ensures
            r == TidalVolumeBase::Atpd,
    {
        TidalVolumeBase::Atpd
    }
}

/// Status flags of the flow and volume group.
#[derive(Debug, Clone, Copy, PartialEq, Eq, Structural)]
pub struct FlowVolStatus {
    /// The module exists (bit 0).
    pub exists: bool,
    /// The module is active (bit 1).
    pub active: bool,
    /// Disconnection (bit 2).
    pub disconnection: bool,
    /// Calibrating (bit 3).
    pub calibrating: bool,
    /// Zeroing (bit 4).
    pub zeroing: bool,
    /// Obstruction (bit 5).
    pub obstruction: bool,
    /// Leak (bit 6).
    pub leak: bool,
    /// Measurement off (bit 7).
    pub measurement_off: bool,
    /// Conditions to which tidal volumes are corrected (bits 8 and 9).
    pub tv_base: TidalVolumeBase,
}

impl FlowVolStatus {
    /// The flags that a status word holds.
    pub open spec fn spec_from_status(status: u32) -> Self {
        FlowVolStatus {
            exists: status & 0x1 != 0,
            active: status & 0x2 != 0,
            disconnection: status & 0x4 != 0,
            calibrating: status & 0x8 != 0,
            zeroing: status & 0x10 != 0,
            obstruction: status & 0x20 != 0,
            leak: status & 0x40 != 0,
            measurement_off: status & 0x80 != 0,
            tv_base: TidalVolumeBase::spec_from_status(status),
        }
    }

    /// Reads the flags out of a status word.
    pub fn from_status(status: u32) -> (r: Self)
        ensures
            r == Self::spec_from_status(status),
    {
        Self {
            exists: (status & 0x1) != 0,
            active: (status & 0x2) != 0,
            disconnection: (status & 0x4) != 0,
            calibrating: (status & 0x8) != 0,
            zeroing: (status & 0x10) != 0,
            obstruction: (status & 0x20) != 0,
            leak: (status & 0x40) != 0,
            measurement_off: (status & 0x80) != 0,
            tv_base: TidalVolumeBase::from_status(status),
        }
    }
}

impl Default for FlowVolStatus {
    /// Every flag clear.
    fn default() -> (r: Self)
        ensures
            !r.exists,
            !r.active,
            !r.disconnection,
            !r.calibrating,
            !r.zeroing,
            !r.obstruction,
            !r.leak,
            !r.measurement_off,
            r.tv_base == TidalVolumeBase::Atpd,
    {
        Self {
            exists: false,
            active: false,
            disconnection: false,
            calibrating: false,
            zeroing: false,
            obstruction: false,
            leak: false,
            measurement_off: false,
            tv_base: TidalVolumeBase::Atpd,
        }
    }
}

/// Status flags of the O2, N2O and anesthesia agent groups.
#[derive(Debug, Clone, Copy, PartialEq, Eq, Structural)]
pub struct GasStatus {
    /// The module exists (bit 0).
    pub exists: bool,
    /// The module is active (bit 1).
    pub active: bool,
    /// Calibrating (bit 2).
    pub calibrating: bool,
    /// Measurement off (bit 3).
    pub measurement_off: bool,
}

impl GasStatus {
    /// The flags that a status word holds.
    pub open spec fn spec_from_status(status: u32) -> Self {
        GasStatus {
            exists: status & 0x1 != 0,
            active: status & 0x2 != 0,
            calibrating: status & 0x4 != 0,
            measurement_off: status & 0x8 != 0,
        }
    }

    /// Reads the flags out of a status word.
    pub fn from_status(status: u32) -> (r: Self)
        ensures
            r == Self::spec_from_status(status),
    {
        Self {
            exists: (status & 0x1) != 0,
            active: (status & 0x2) != 0,
            calibrating: (status & 0x4) != 0,
            measurement_off: (status & 0x8) != 0,
        }
    }
}

impl Default for GasStatus {
    /// Every flag clear.
    fn default() -> (r: Self)
        ensures
            !r.exists,
            !r.active,
            !r.calibrating,
            !r.measurement_off,
    {
        Self {
            exists: false,
            active: false,
            calibrating: false,
            measurement_off: false,
        }
    }
}

/// Status flags of a group that reports existence and activity only.
#[derive(Debug, Clone, Copy, PartialEq, Eq, Structural)]
pub struct GenericStatus {
    /// The module exists (bit 0).
    pub exists: bool,
    /// The module is active (bit 1).
    pub active: bool,
}

impl GenericStatus {
    /// The flags that a status word holds.
    pub open spec fn spec_from_status(status: u32) -> Self {
        GenericStatus {
            exists: status & 0x1 != 0,
            active: status & 0x2 != 0,
        }
    }

    /// Reads the flags out of a status word.
    pub fn from_status(status: u32) -> (r: Self)
        ensures
            r == Self::spec_from_status(status),
    {
        Self {
            exists: (status & 0x1) != 0,
            active: (status & 0x2) != 0,
        }
    }
}

impl Default for GenericStatus {
    /// Every flag clear.
    fn default() -> (r: Self)
        ensures
            !r.exists,
            !r.active,
    {
        Self {
            exists: false,
            active: false,
        }
    }
}

} // verus!
