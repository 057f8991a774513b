//! Decoder of physiological records.
//!
//! A physiological subrecord starts with a 4-byte time stamp. The data of the
//! Basic class follows: a fixed sequence of parameter groups, each a 6-byte
//! header (status word and label) and 16-bit measurement fields. A group that
//! the data ends before is absent, and so are all groups after it.

use vstd::prelude::*;
use crate::DriError;
use crate::constants::dri_types::{PhdbClass, PhdbSubrecordType};
use crate::constants::physiological::{
    AnesthesiaAgent,
    EcgLeadType,
    HrSource,
    InvasivePressureLabel,
    TemperatureLabel,
};
use crate::constants::scaling::{
    SCALE_AWP_100,
    SCALE_COMPLIANCE_100,
    SCALE_IR_AMP_10,
    SCALE_MAC_100,
    SCALE_MINUTE_VOLUME_100,
    SCALE_PERCENT_100,
    SCALE_PRESSURE_100,
    SCALE_RATE_1,
    SCALE_ST_100,
    SCALE_TEMP_100,
    SCALE_VOLUME_10,
};
use crate::decode::measurement::Measurement;
use crate::decode::status_bits::{
    Co2Status,
    EcgStatus,
    FlowVolStatus,
    GasStatus,
    GenericStatus,
    NibpStatus,
    Spo2Status,
};
use crate::decode::subrecords::{parse_group_header, read_u32, spec_le_u16, spec_le_u32};

verus! {

/// Length of the time stamp that starts a physiological subrecord.
pub const PHDB_TIMESTAMP_SIZE: usize = 4;

/// Length of a complete physiological subrecord.
pub const PHDB_SUBRECORD_SIZE: usize = 1088;

/// Offset of the ECG group in the data of the Basic class.
pub const ECG_OFFSET: usize = 0;

/// Offset of the group of invasive pressure channel 1 in the data of the Basic class.
pub const INVP1_OFFSET: usize = 16;

/// Offset of the group of invasive pressure channel 2 in the data of the Basic class.
pub const INVP2_OFFSET: usize = 30;

/// Offset of the group of invasive pressure channel 3 in the data of the Basic class.
pub const INVP3_OFFSET: usize = 44;

/// Offset of the group of invasive pressure channel 4 in the data of the Basic class.
pub const INVP4_OFFSET: usize = 58;

/// Offset of the non-invasive blood pressure group in the data of the Basic class.
pub const NIBP_OFFSET: usize = 72;

/// Offset of the group of temperature channel 1 in the data of the Basic class.
pub const TEMP1_OFFSET: usize = 86;

/// Offset of the group of temperature channel 2 in the data of the Basic class.
pub const TEMP2_OFFSET: usize = 94;

/// Offset of the group of temperature channel 3 in the data of the Basic class.
pub const TEMP3_OFFSET: usize = 102;

/// Offset of the group of temperature channel 4 in the data of the Basic class.
pub const TEMP4_OFFSET: usize = 110;

/// Offset of the SpO2 group in the data of the Basic class.
pub const SPO2_OFFSET: usize = 118;

/// Offset of the CO2 group in the data of the Basic class.
pub const CO2_OFFSET: usize = 132;

/// Offset of the O2 group in the data of the Basic class.
pub const O2_OFFSET: usize = 146;

/// Offset of the N2O group in the data of the Basic class.
pub const N2O_OFFSET: usize = 156;

/// Offset of the anesthesia agent group in the data of the Basic class.
pub const AA_OFFSET: usize = 166;

/// Offset of the flow and volume group in the data of the Basic class.
pub const FLOW_VOL_OFFSET: usize = 178;

/// The status word of the group that starts at `base`.
pub open spec fn spec_status_at(data: Seq<u8>, base: int) -> u32 {
    spec_le_u32(data[base], data[base + 1], data[base + 2], data[base + 3])
}

/// The label of the group that starts at `base`.
pub open spec fn spec_label_at(data: Seq<u8>, base: int) -> u16 {
    spec_le_u16(data[base + 4], data[base + 5])
}

/// The lead that a 4-bit code selects; a code without a meaning selects none.
pub open spec fn spec_lead_of(code: u8) -> EcgLeadType {
    match EcgLeadType::spec_from_u8(code) {
        Some(lead) => lead,
        None => EcgLeadType::NotSelected,
    }
}

/// The lead that a 4-bit code selects; a code without a meaning selects none.
pub fn lead_of(code: u8) -> (lead: EcgLeadType)
    ensures
        lead == spec_lead_of(code),
{
    match EcgLeadType::from_u8(code) {
        Some(lead) => lead,
        None => EcgLeadType::NotSelected,
    }
}

/// ECG group: heart rate, three ST levels and the impedance respiration rate.
#[derive(Debug, Clone, Copy, PartialEq, Eq, Structural)]
pub struct EcgGroup {
    /// Status flags of the group.
    pub status: EcgStatus,
    /// Source of the heart rate, from bits 3 to 6 of the status word; `None` for a code without a meaning.
    pub hr_source: Option<HrSource>,
    /// First lead, from bits 0 to 3 of the label.
    pub lead1: EcgLeadType,
    /// Second lead, from bits 4 to 7 of the label.
    pub lead2: EcgLeadType,
    /// Third lead, from bits 8 to 11 of the label.
    pub lead3: EcgLeadType,
    /// Heart rate in beats per minute.
    pub hr: Measurement,
    /// ST level 1 in millimetres.
    pub st1: Measurement,
    /// ST level 2 in millimetres.
    pub st2: Measurement,
    /// ST level 3 in millimetres.
    pub st3: Measurement,
    /// Impedance respiration rate in breaths per minute.
    pub imp_rr: Measurement,
}

/// What the ECG group at `base` decodes to: `None` where the data ends before
/// byte `base + 16`.
pub open spec fn spec_parse_ecg_group(data: Seq<u8>, base: int) -> Option<EcgGroup> {
    if 0 <= base && base + 16 <= data.len() {
        let status = spec_status_at(data, base);
        let label = spec_label_at(data, base);
        Some(
            EcgGroup {
                status: EcgStatus::spec_from_status(status),
                hr_source: HrSource::spec_from_u8(((status / 8) % 16) as u8),
                lead1: spec_lead_of((label % 16) as u8),
                lead2: spec_lead_of(((label / 16) % 16) as u8),
                lead3: spec_lead_of(((label / 256) % 16) as u8),
                hr: Measurement::spec_at(data, base + 6, SCALE_RATE_1),
                st1: Measurement::spec_at(data, base + 8, SCALE_ST_100),
                st2: Measurement::spec_at(data, base + 10, SCALE_ST_100),
                st3: Measurement::spec_at(data, base + 12, SCALE_ST_100),
                imp_rr: Measurement::spec_at(data, base + 14, SCALE_RATE_1),
            },
        )
    } else {
        None
    }
}

/// Decodes the ECG group that starts at `base`. The group is absent where the
/// data ends before its last byte. The fields are read whatever the status
/// flags say: a field without a measurement says so itself.
pub fn parse_ecg_group(data: &[u8], base: usize) -> (group: Option<EcgGroup>)
    ensures
        group == spec_parse_ecg_group(data@, base as int),
{
    if data.len() < 16 || base > data.len() - 16 {
        return None;
    }
    let header = match parse_group_header(data, base) {
        Some(header) => header,
        None => {
            return None;
        },
    };
    let status = header.status;
    let label = header.label;
    Some(
        EcgGroup {
            status: EcgStatus::from_status(status),
            hr_source: HrSource::from_u8(((status / 8) % 16) as u8),
            lead1: lead_of((label % 16) as u8),
            lead2: lead_of(((label / 16) % 16) as u8),
            lead3: lead_of(((label / 256) % 16) as u8),
            hr: Measurement::at(data, base + 6, SCALE_RATE_1),
            st1: Measurement::at(data, base + 8, SCALE_ST_100),
            st2: Measurement::at(data, base + 10, SCALE_ST_100),
            st3: Measurement::at(data, base + 12, SCALE_ST_100),
            imp_rr: Measurement::at(data, base + 14, SCALE_RATE_1),
        },
    )
}

/// Invasive pressure group of one channel.
#[derive(Debug, Clone, Copy, PartialEq, Eq, Structural)]
pub struct InvasivePressureGroup {
    /// Status flags of the group.
    pub status: GenericStatus,
    /// Site of the channel; `None` for a label without a meaning.
    pub label: Option<InvasivePressureLabel>,
    /// Systolic pressure in mmHg.
    pub sys: Measurement,
    /// Diastolic pressure in mmHg.
    pub dia: Measurement,
    /// Mean pressure in mmHg.
    pub mean: Measurement,
    /// Heart rate in beats per minute.
    pub hr: Measurement,
}

/// What an invasive pressure group at `base` decodes to: `None` where the data ends before
/// byte `base + 14`.
pub open spec fn spec_parse_invp_group(data: Seq<u8>, base: int) -> Option<InvasivePressureGroup> {
    if 0 <= base && base + 14 <= data.len() {
        let status = spec_status_at(data, base);
        let label = spec_label_at(data, base);
        Some(
            InvasivePressureGroup {
                status: GenericStatus::spec_from_status(status),
                label: InvasivePressureLabel::spec_from_u16(label),
                sys: Measurement::spec_at(data, base + 6, SCALE_PRESSURE_100),
                dia: Measurement::spec_at(data, base + 8, SCALE_PRESSURE_100),
                mean: Measurement::spec_at(data, base + 10, SCALE_PRESSURE_100),
                hr: Measurement::spec_at(data, base + 12, SCALE_RATE_1),
            },
        )
    } else {
        None
    }
}

/// Decodes an invasive pressure group that starts at `base`. The group is absent where the
/// data ends before its last byte. The fields are read whatever the status
/// flags say: a field without a measurement says so itself.
pub fn parse_invp_group(data: &[u8], base: usize) -> (group: Option<InvasivePressureGroup>)
    ensures
        group == spec_parse_invp_group(data@, base as int),
{
    if data.len() < 14 || base > data.len() - 14 {
        return None;
    }
    let header = match parse_group_header(data, base) {
        Some(header) => header,
        None => {
            return None;
        },
    };
    let status = header.status;
    let label = header.label;
    Some(
        InvasivePressureGroup {
            status: GenericStatus::from_status(status),
            label: InvasivePressureLabel::from_u16(label),
            sys: Measurement::at(data, base + 6, SCALE_PRESSURE_100),
            dia: Measurement::at(data, base + 8, SCALE_PRESSURE_100),
            mean: Measurement::at(data, base + 10, SCALE_PRESSURE_100),
            hr: Measurement::at(data, base + 12, SCALE_RATE_1),
        },
    )
}

/// Non-invasive blood pressure group.
#[derive(Debug, Clone, Copy, PartialEq, Eq, Structural)]
pub struct NibpGroup {
    /// Status flags of the group.
    pub status: NibpStatus,
    /// Systolic pressure in mmHg.
    pub sys: Measurement,
    /// Diastolic pressure in mmHg.
    pub dia: Measurement,
    /// Mean pressure in mmHg.
    pub mean: Measurement,
    /// Heart rate in beats per minute.
    pub hr: Measurement,
}

/// What the NIBP group at `base` decodes to: `None` where the data ends before
/// byte `base + 14`.
pub open spec fn spec_parse_nibp_group(data: Seq<u8>, base: int) -> Option<NibpGroup> {
    if 0 <= base && base + 14 <= data.len() {
        let status = spec_status_at(data, base);
        let label = spec_label_at(data, base);
        Some(
            NibpGroup {
                status: NibpStatus::spec_from_label(status, label),
                sys: Measurement::spec_at(data, base + 6, SCALE_PRESSURE_100),
                dia: Measurement::spec_at(data, base + 8, SCALE_PRESSURE_100),
                mean: Measurement::spec_at(data, base + 10, SCALE_PRESSURE_100),
                hr: Measurement::spec_at(data, base + 12, SCALE_RATE_1),
            },
        )
    } else {
        None
    }
}

/// Decodes the NIBP group that starts at `base`. The group is absent where the
/// data ends before its last byte. The fields are read whatever the status
/// flags say: a field without a measurement says so itself.
pub fn parse_nibp_group(data: &[u8], base: usize) -> (group: Option<NibpGroup>)
    ensures
        group == spec_parse_nibp_group(data@, base as int),
{
    if data.len() < 14 || base > data.len() - 14 {
        return None;
    }
    let header = match parse_group_header(data, base) {
        Some(header) => header,
        None => {
            return None;
        },
    };
    let status = header.status;
    let label = header.label;
    Some(
        NibpGroup {
            status: NibpStatus::from_label(status, label),
            sys: Measurement::at(data, base + 6, SCALE_PRESSURE_100),
            dia: Measurement::at(data, base + 8, SCALE_PRESSURE_100),
            mean: Measurement::at(data, base + 10, SCALE_PRESSURE_100),
            hr: Measurement::at(data, base + 12, SCALE_RATE_1),
        },
    )
}

/// Temperature group of one channel.
#[derive(Debug, Clone, Copy, PartialEq, Eq, Structural)]
pub struct TemperatureGroup {
    /// Status flags of the group.
    pub status: GenericStatus,
    /// Site of the channel; `None` for a label without a meaning.
    pub label: Option<TemperatureLabel>,
    /// Temperature in degrees Celsius.
    pub temp: Measurement,
}

/// What a temperature group at `base` decodes to: `None` where the data ends before
/// byte `base + 8`.
pub open spec fn spec_parse_temp_group(data: Seq<u8>, base: int) -> Option<TemperatureGroup> {
    if 0 <= base && base + 8 <= data.len() {
        let status = spec_status_at(data, base);
        let label = spec_label_at(data, base);
        Some(
            TemperatureGroup {
                status: GenericStatus::spec_from_status(status),
                label: TemperatureLabel::spec_from_u16(label),
                temp: Measurement::spec_at(data, base + 6, SCALE_TEMP_100),
            },
        )
    } else {
        None
    }
}

/// Decodes a temperature group that starts at `base`. The group is absent where the
/// data ends before its last byte. The fields are read whatever the status
/// flags say: a field without a measurement says so itself.
pub fn parse_temp_group(data: &[u8], base: usize) -> (group: Option<TemperatureGroup>)
    ensures
        group == spec_parse_temp_group(data@, base as int),
{
    if data.len() < 8 || base > data.len() - 8 {
        return None;
    }
    let header = match parse_group_header(data, base) {
        Some(header) => header,
        None => {
            return None;
        },
    };
    let status = header.status;
    let label = header.label;
    Some(
        TemperatureGroup {
            status: GenericStatus::from_status(status),
            label: TemperatureLabel::from_u16(label),
            temp: Measurement::at(data, base + 6, SCALE_TEMP_100),
        },
    )
}

/// SpO2 group.
#[derive(Debug, Clone, Copy, PartialEq, Eq, Structural)]
pub struct Spo2Group {
    /// Status flags of the group.
    pub status: Spo2Status,
    /// Oxygen saturation in percent.
    pub spo2: Measurement,
    /// Pulse rate in beats per minute.
    pub pr: Measurement,
    /// Infrared amplitude in percent.
    pub ir_amp: Measurement,
}

/// What the SpO2 group at `base` decodes to: `None` where the data ends before
/// byte `base + 14`.
pub open spec fn spec_parse_spo2_group(data: Seq<u8>, base: int) -> Option<Spo2Group> {
    if 0 <= base && base + 14 <= data.len() {
        let status = spec_status_at(data, base);
        let label = spec_label_at(data, base);
        Some(
            Spo2Group {
                status: Spo2Status::spec_from_status(status),
                spo2: Measurement::spec_at(data, base + 6, SCALE_PERCENT_100),
                pr: Measurement::spec_at(data, base + 8, SCALE_RATE_1),
                ir_amp: Measurement::spec_at(data, base + 10, SCALE_IR_AMP_10),
            },
        )
    } else {
        None
    }
}

/// Decodes the SpO2 group that starts at `base`. The group is absent where the
/// data ends before its last byte. The fields are read whatever the status
/// flags say: a field without a measurement says so itself.
pub fn parse_spo2_group(data: &[u8], base: usize) -> (group: Option<Spo2Group>)
    ensures
        group == spec_parse_spo2_group(data@, base as int),
{
    if data.len() < 14 || base > data.len() - 14 {
        return None;
    }
    let header = match parse_group_header(data, base) {
        Some(header) => header,
        None => {
            return None;
        },
    };
    let status = header.status;
    let label = header.label;
    Some(
        Spo2Group {
            status: Spo2Status::from_status(status),
            spo2: Measurement::at(data, base + 6, SCALE_PERCENT_100),
            pr: Measurement::at(data, base + 8, SCALE_RATE_1),
            ir_amp: Measurement::at(data, base + 10, SCALE_IR_AMP_10),
        },
    )
}

/// CO2 group.
#[derive(Debug, Clone, Copy, PartialEq, Eq, Structural)]
pub struct Co2Group {
    /// Status flags of the group.
    pub status: Co2Status,
    /// End-tidal concentration in percent.
    pub et: Measurement,
    /// Inspired concentration in percent.
    pub fi: Measurement,
    /// Respiration rate in breaths per minute.
    pub rr: Measurement,
    /// Ambient pressure in mmHg.
    pub amb_press: Measurement,
}

/// What the CO2 group at `base` decodes to: `None` where the data ends before
/// byte `base + 14`.
pub open spec fn spec_parse_co2_group(data: Seq<u8>, base: int) -> Option<Co2Group> {
    if 0 <= base && base + 14 <= data.len() {
        let status = spec_status_at(data, base);
        let label = spec_label_at(data, base);
        Some(
            Co2Group {
                status: Co2Status::spec_from_status(status),
                et: Measurement::spec_at(data, base + 6, SCALE_PERCENT_100),
                fi: Measurement::spec_at(data, base + 8, SCALE_PERCENT_100),
                rr: Measurement::spec_at(data, base + 10, SCALE_RATE_1),
                amb_press: Measurement::spec_at(data, base + 12, SCALE_PRESSURE_100),
            },
        )
    } else {
        None
    }
}

/// Decodes the CO2 group that starts at `base`. The group is absent where the
/// data ends before its last byte. The fields are read whatever the status
/// flags say: a field without a measurement says so itself.
pub fn parse_co2_group(data: &[u8], base: usize) -> (group: Option<Co2Group>)
    ensures
        group == spec_parse_co2_group(data@, base as int),
{
    if data.len() < 14 || base > data.len() - 14 {
        return None;
    }
    let header = match parse_group_header(data, base) {
        Some(header) => header,
        None => {
            return None;
        },
    };
    let status = header.status;
    let label = header.label;
    Some(
        Co2Group {
            status: Co2Status::from_status(status),
            et: Measurement::at(data, base + 6, SCALE_PERCENT_100),
            fi: Measurement::at(data, base + 8, SCALE_PERCENT_100),
            rr: Measurement::at(data, base + 10, SCALE_RATE_1),
            amb_press: Measurement::at(data, base + 12, SCALE_PRESSURE_100),
        },
    )
}

/// Gas group of O2 and of N2O.
#[derive(Debug, Clone, Copy, PartialEq, Eq, Structural)]
pub struct GasGroup {
    /// Status flags of the group.
    pub status: GasStatus,
    /// End-tidal concentration in percent.
    pub et: Measurement,
    /// Inspired concentration in percent.
    pub fi: Measurement,
}

/// What a gas group at `base` decodes to: `None` where the data ends before
/// byte `base + 10`.
pub open spec fn spec_parse_gas_group(data: Seq<u8>, base: int) -> Option<GasGroup> {
    if 0 <= base && base + 10 <= data.len() {
        let status = spec_status_at(data, base);
        let label = spec_label_at(data, base);
        Some(
            GasGroup {
                status: GasStatus::spec_from_status(status),
                et: Measurement::spec_at(data, base + 6, SCALE_PERCENT_100),
                fi: Measurement::spec_at(data, base + 8, SCALE_PERCENT_100),
            },
        )
    } else {
        None
    }
}

/// Decodes a gas group that starts at `base`. The group is absent where the
/// data ends before its last byte. The fields are read whatever the status
/// flags say: a field without a measurement says so itself.
pub fn parse_gas_group(data: &[u8], base: usize) -> (group: Option<GasGroup>)
    ensures
        group == spec_parse_gas_group(data@, base as int),
{
    if data.len() < 10 || base > data.len() - 10 {
        return None;
    }
    let header = match parse_group_header(data, base) {
        Some(header) => header,
        None => {
            return None;
        },
    };
    let status = header.status;
    let label = header.label;
    Some(
        GasGroup {
            status: GasStatus::from_status(status),
            et: Measurement::at(data, base + 6, SCALE_PERCENT_100),
            fi: Measurement::at(data, base + 8, SCALE_PERCENT_100),
        },
    )
}

/// Anesthesia agent group.
#[derive(Debug, Clone, Copy, PartialEq, Eq, Structural)]
pub struct AnesthesiaGroup {
    /// Status flags of the group.
    pub status: GasStatus,
    /// The agent in use; `None` for a label without a meaning.
    pub agent: Option<AnesthesiaAgent>,
    /// End-tidal concentration in percent.
    pub et: Measurement,
    /// Inspired concentration in percent.
    pub fi: Measurement,
    /// Minimum alveolar concentration.
    pub mac: Measurement,
}

/// What the anesthesia agent group at `base` decodes to: `None` where the data ends before
/// byte `base + 12`.
pub open spec fn spec_parse_aa_group(data: Seq<u8>, base: int) -> Option<AnesthesiaGroup> {
    if 0 <= base && base + 12 <= data.len() {
        let status = spec_status_at(data, base);
        let label = spec_label_at(data, base);
        Some(
            AnesthesiaGroup {
                status: GasStatus::spec_from_status(status),
                agent: AnesthesiaAgent::spec_from_u16(label),
                et: Measurement::spec_at(data, base + 6, SCALE_PERCENT_100),
                fi: Measurement::spec_at(data, base + 8, SCALE_PERCENT_100),
                mac: Measurement::spec_at(data, base + 10, SCALE_MAC_100),
            },
        )
    } else {
        None
    }
}

/// Decodes the anesthesia agent group that starts at `base`. The group is absent where the
/// data ends before its last byte. The fields are read whatever the status
/// flags say: a field without a measurement says so itself.
pub fn parse_aa_group(data: &[u8], base: usize) -> (group: Option<AnesthesiaGroup>)
    ensures
        group == spec_parse_aa_group(data@, base as int),
{
    if data.len() < 12 || base > data.len() - 12 {
        return None;
    }
    let header = match parse_group_header(data, base) {
        Some(header) => header,
        None => {
            return None;
        },
    };
    let status = header.status;
    let label = header.label;
    Some(
        AnesthesiaGroup {
            status: GasStatus::from_status(status),
            agent: AnesthesiaAgent::from_u16(label),
            et: Measurement::at(data, base + 6, SCALE_PERCENT_100),
            fi: Measurement::at(data, base + 8, SCALE_PERCENT_100),
            mac: Measurement::at(data, base + 10, SCALE_MAC_100),
        },
    )
}

/// Flow and volume group.
#[derive(Debug, Clone, Copy, PartialEq, Eq, Structural)]
pub struct FlowVolGroup {
    /// Status flags of the group.
    pub status: FlowVolStatus,
    /// Respiration rate in breaths per minute.
    pub rr: Measurement,
    /// Peak airway pressure in cmH2O.
    pub ppeak: Measurement,
    /// Positive end-expiratory pressure in cmH2O.
    pub peep: Measurement,
    /// Plateau pressure in cmH2O.
    pub pplat: Measurement,
    /// Inspired tidal volume in millilitres.
    pub tv_insp: Measurement,
    /// Expired tidal volume in millilitres.
    pub tv_exp: Measurement,
    /// Compliance in ml/cmH2O.
    pub compliance: Measurement,
    /// Expired minute volume in litres per minute.
    pub mv_exp: Measurement,
}

/// What the flow and volume group at `base` decodes to: `None` where the data ends before
/// byte `base + 22`.
pub open spec fn spec_parse_flow_vol_group(data: Seq<u8>, base: int) -> Option<FlowVolGroup> {
    if 0 <= base && base + 22 <= data.len() {
        let status = spec_status_at(data, base);
        let label = spec_label_at(data, base);
        Some(
            FlowVolGroup {
                status: FlowVolStatus::spec_from_status(status),
                rr: Measurement::spec_at(data, base + 6, SCALE_RATE_1),
                ppeak: Measurement::spec_at(data, base + 8, SCALE_AWP_100),
                peep: Measurement::spec_at(data, base + 10, SCALE_AWP_100),
                pplat: Measurement::spec_at(data, base + 12, SCALE_AWP_100),
                tv_insp: Measurement::spec_at(data, base + 14, SCALE_VOLUME_10),
                tv_exp: Measurement::spec_at(data, base + 16, SCALE_VOLUME_10),
                compliance: Measurement::spec_at(data, base + 18, SCALE_COMPLIANCE_100),
                mv_exp: Measurement::spec_at(data, base + 20, SCALE_MINUTE_VOLUME_100),
            },
        )
    } else {
        None
    }
}

/// Decodes the flow and volume group that starts at `base`. The group is absent where the
/// data ends before its last byte. The fields are read whatever the status
/// flags say: a field without a measurement says so itself.
pub fn parse_flow_vol_group(data: &[u8], base: usize) -> (group: Option<FlowVolGroup>)
    ensures
        group == spec_parse_flow_vol_group(data@, base as int),
{
    if data.len() < 22 || base > data.len() - 22 {
        return None;
    }
    let header = match parse_group_header(data, base) {
        Some(header) => header,
        None => {
            return None;
        },
    };
    let status = header.status;
    let label = header.label;
    Some(
        FlowVolGroup {
            status: FlowVolStatus::from_status(status),
            rr: Measurement::at(data, base + 6, SCALE_RATE_1),
            ppeak: Measurement::at(data, base + 8, SCALE_AWP_100),
            peep: Measurement::at(data, base + 10, SCALE_AWP_100),
            pplat: Measurement::at(data, base + 12, SCALE_AWP_100),
            tv_insp: Measurement::at(data, base + 14, SCALE_VOLUME_10),
            tv_exp: Measurement::at(data, base + 16, SCALE_VOLUME_10),
            compliance: Measurement::at(data, base + 18, SCALE_COMPLIANCE_100),
            mv_exp: Measurement::at(data, base + 20, SCALE_MINUTE_VOLUME_100),
        },
    )
}

/// A decoded physiological record: one field for each parameter group of the
/// Basic class, `None` where the group is absent.
#[derive(Debug, Clone, Copy, PartialEq, Eq, Structural)]
pub struct PhysiologicalData {
    /// Time of the subrecord in seconds since 1970-01-01 UTC.
    pub timestamp: u32,
    /// Class of the record.
    pub class: PhdbClass,
    /// Subrecord type: displayed values or one of the trends.
    pub subtype: PhdbSubrecordType,
    /// ECG.
    pub ecg: Option<EcgGroup>,
    /// Invasive pressure, channel 1.
    pub invp1: Option<InvasivePressureGroup>,
    /// Invasive pressure, channel 2.
    pub invp2: Option<InvasivePressureGroup>,
    /// Invasive pressure, channel 3.
    pub invp3: Option<InvasivePressureGroup>,
    /// Invasive pressure, channel 4.
    pub invp4: Option<InvasivePressureGroup>,
    /// Non-invasive blood pressure.
    pub nibp: Option<NibpGroup>,
    /// Temperature, channel 1.
    pub temp1: Option<TemperatureGroup>,
    /// Temperature, channel 2.
    pub temp2: Option<TemperatureGroup>,
    /// Temperature, channel 3.
    pub temp3: Option<TemperatureGroup>,
    /// Temperature, channel 4.
    pub temp4: Option<TemperatureGroup>,
    /// SpO2.
    pub spo2: Option<Spo2Group>,
    /// CO2.
    pub co2: Option<Co2Group>,
    /// O2.
    pub o2: Option<GasGroup>,
    /// N2O.
    pub n2o: Option<GasGroup>,
    /// Anesthesia agent.
    pub aa: Option<AnesthesiaGroup>,
    /// Flow and volume.
    pub flow_vol: Option<FlowVolGroup>,
}

impl PhysiologicalData {
    /// The record without any group.
    pub open spec fn spec_empty(
        timestamp: u32,
        class: PhdbClass,
        subtype: PhdbSubrecordType,
    ) -> PhysiologicalData {
        PhysiologicalData {
            timestamp,
            class,
            subtype,
            ecg: None,
            invp1: None,
            invp2: None,
            invp3: None,
            invp4: None,
            nibp: None,
            temp1: None,
            temp2: None,
            temp3: None,
            temp4: None,
            spo2: None,
            co2: None,
            o2: None,
            n2o: None,
            aa: None,
            flow_vol: None,
        }
    }

    /// The record with the groups of the Basic class that `data` holds, and
    /// everything else as before.
    pub open spec fn spec_with_basic_class(&self, data: Seq<u8>) -> PhysiologicalData {
        PhysiologicalData {
            timestamp: self.timestamp,
            class: self.class,
            subtype: self.subtype,
            ecg: spec_parse_ecg_group(data, ECG_OFFSET as int),
            invp1: spec_parse_invp_group(data, INVP1_OFFSET as int),
            invp2: spec_parse_invp_group(data, INVP2_OFFSET as int),
            invp3: spec_parse_invp_group(data, INVP3_OFFSET as int),
            invp4: spec_parse_invp_group(data, INVP4_OFFSET as int),
            nibp: spec_parse_nibp_group(data, NIBP_OFFSET as int),
            temp1: spec_parse_temp_group(data, TEMP1_OFFSET as int),
            temp2: spec_parse_temp_group(data, TEMP2_OFFSET as int),
            temp3: spec_parse_temp_group(data, TEMP3_OFFSET as int),
            temp4: spec_parse_temp_group(data, TEMP4_OFFSET as int),
            spo2: spec_parse_spo2_group(data, SPO2_OFFSET as int),
            co2: spec_parse_co2_group(data, CO2_OFFSET as int),
            o2: spec_parse_gas_group(data, O2_OFFSET as int),
            n2o: spec_parse_gas_group(data, N2O_OFFSET as int),
            aa: spec_parse_aa_group(data, AA_OFFSET as int),
            flow_vol: spec_parse_flow_vol_group(data, FLOW_VOL_OFFSET as int),
        }
    }

    /// A record without any group.
    pub fn empty(timestamp: u32, class: PhdbClass, subtype: PhdbSubrecordType) -> (record: Self)
        ensures
            record == Self::spec_empty(timestamp, class, subtype),
    {
        Self {
            timestamp,
            class,
            subtype,
            ecg: None,
            invp1: None,
            invp2: None,
            invp3: None,
            invp4: None,
            nibp: None,
            temp1: None,
            temp2: None,
            temp3: None,
            temp4: None,
            spo2: None,
            co2: None,
            o2: None,
            n2o: None,
            aa: None,
            flow_vol: None,
        }
    }
}

/// Decodes the groups of the Basic class from the data that follows the time
/// stamp of a subrecord and stores them in `phys`. Data of any length is
/// accepted: a group is present exactly when the data reaches its last byte.
pub fn decode_basic_class(data: &[u8], phys: &mut PhysiologicalData)
    ensures
        *final(phys) == old(phys).spec_with_basic_class(data@),
{
    phys.ecg = parse_ecg_group(data, ECG_OFFSET);
    phys.invp1 = parse_invp_group(data, INVP1_OFFSET);
    phys.invp2 = parse_invp_group(data, INVP2_OFFSET);
    phys.invp3 = parse_invp_group(data, INVP3_OFFSET);
    phys.invp4 = parse_invp_group(data, INVP4_OFFSET);
    phys.nibp = parse_nibp_group(data, NIBP_OFFSET);
    phys.temp1 = parse_temp_group(data, TEMP1_OFFSET);
    phys.temp2 = parse_temp_group(data, TEMP2_OFFSET);
    phys.temp3 = parse_temp_group(data, TEMP3_OFFSET);
    phys.temp4 = parse_temp_group(data, TEMP4_OFFSET);
    phys.spo2 = parse_spo2_group(data, SPO2_OFFSET);
    phys.co2 = parse_co2_group(data, CO2_OFFSET);
    phys.o2 = parse_gas_group(data, O2_OFFSET);
    phys.n2o = parse_gas_group(data, N2O_OFFSET);
    phys.aa = parse_aa_group(data, AA_OFFSET);
    phys.flow_vol = parse_flow_vol_group(data, FLOW_VOL_OFFSET);
}

/// A group is present exactly when the data reaches its last byte, so a group
/// that is absent leaves every later group absent as well. The ends of the
/// groups are 16, 30, 44, 58, 72, 86, 94, 102, 110, 118, 132, 146, 156, 166,
/// 178 and 200.
pub proof fn lemma_groups_follow_length(record: PhysiologicalData, data: Seq<u8>)
    ensures
        ({
            let r = record.spec_with_basic_class(data);
            &&& r.ecg is Some <==> data.len() >= 16
            &&& r.invp1 is Some <==> data.len() >= 30
            &&& r.invp2 is Some <==> data.len() >= 44
            &&& r.invp3 is Some <==> data.len() >= 58
            &&& r.invp4 is Some <==> data.len() >= 72
            &&& r.nibp is Some <==> data.len() >= 86
            &&& r.temp1 is Some <==> data.len() >= 94
            &&& r.temp2 is Some <==> data.len() >= 102
            &&& r.temp3 is Some <==> data.len() >= 110
            &&& r.temp4 is Some <==> data.len() >= 118
            &&& r.spo2 is Some <==> data.len() >= 132
            &&& r.co2 is Some <==> data.len() >= 146
            &&& r.o2 is Some <==> data.len() >= 156
            &&& r.n2o is Some <==> data.len() >= 166
            &&& r.aa is Some <==> data.len() >= 178
            &&& r.flow_vol is Some <==> data.len() >= 200
        }),
{
}

/// What a physiological subrecord decodes to. The subrecord has to hold its
/// time stamp. The groups of the Basic class are decoded from the bytes
/// after it; the extended classes are not decoded and give a record without
/// groups.
pub open spec fn spec_decode_physiological(
    data: Seq<u8>,
    subtype: PhdbSubrecordType,
    class: PhdbClass,
) -> Result<PhysiologicalData, DriError> {
    if data.len() < 4 {
        Err(DriError::ShortSubrecord)
    } else {
        let record = PhysiologicalData::spec_empty(
            spec_le_u32(data[0], data[1], data[2], data[3]),
            class,
            subtype,
        );
        if class == PhdbClass::Basic {
            Ok(record.spec_with_basic_class(data.skip(4)))
        } else {
            Ok(record)
        }
    }
}

/// Decodes a physiological subrecord of the given type and class. Fails with
/// `ShortSubrecord` exactly when the subrecord is shorter than its time
/// stamp; a subrecord that ends within the groups gives a record in which the
/// groups it does not reach are absent.
pub fn decode_physiological(
    subrecord_data: &[u8],
    subtype: PhdbSubrecordType,
    class: PhdbClass,
) -> (result: Result<PhysiologicalData, DriError>)
    ensures
        result == spec_decode_physiological(subrecord_data@, subtype, class),
{
    let timestamp = match read_u32(subrecord_data, 0) {
        Some(seconds) => seconds,
        None => {
            return Err(DriError::ShortSubrecord);
        },
    };
    let mut phys = PhysiologicalData::empty(timestamp, class, subtype);
    match class {
        PhdbClass::Basic => {
            let class_data = &subrecord_data[PHDB_TIMESTAMP_SIZE..subrecord_data.len()];
            proof {
                assert(class_data@ =~= subrecord_data@.skip(4));
            }
            decode_basic_class(class_data, &mut phys);
        },
        _ => {},
    }
    Ok(phys)
}

} // verus!
