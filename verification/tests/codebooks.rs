use ge_dri_prototype::constants::dri_types::{
    DriLevel, DriMainType, PhdbClass, PhdbSubrecordType, PHDBCL_REQ_ALL,
};
use ge_dri_prototype::constants::physiological::{
    AnesthesiaAgent, EcgLeadType, HrSource, InvasivePressureLabel, TemperatureLabel,
};
use ge_dri_prototype::constants::scaling::{
    scale_i16, scale_valid_i16, Scale, Scaled, SCALE_IR_AMP_10, SCALE_PERCENT_100, SCALE_RATE_1,
    SCALE_TEMP_100, SCALE_VOLUME_10,
};
use ge_dri_prototype::constants::special_values::{
    check_valid, get_special_value, is_invalid, DATA_INVALID_LIMIT,
};
use ge_dri_prototype::constants::waveforms::{get_waveform_info, MAX_TOTAL_SAMPLE_RATE};
use ge_dri_prototype::constants::{
    SpecialValue, WaveformType, BIT5, BIT5_COMPL, CTRL_CHAR, EOL_SUBRECORD_LIST, FRAME_CHAR,
    HEADER_SIZE, MAX_DATA_SIZE, MAX_RECORD_SIZE, MAX_SUBRECORDS,
};
use ge_dri_prototype::decode::status_bits::{
    Co2Status, EcgStatus, FlowVolStatus, GasStatus, GenericStatus, NibpStatus, Spo2Status,
    TidalVolumeBase,
};

fn to_f64(value: Scaled) -> f64 {
    match value.scale {
        Scale::Unit => value.raw as f64,
        Scale::Tenth => value.raw as f64 * 0.1,
        Scale::Hundredth => value.raw as f64 * 0.01,
    }
}

#[test]
fn test_scale_i16() {
    assert_eq!(scale_i16(Some(9800), SCALE_PERCENT_100).map(to_f64), Some(98.0));
    assert_eq!(scale_i16(Some(3700), SCALE_TEMP_100).map(to_f64), Some(37.0));
    assert_eq!(scale_i16(None, SCALE_PERCENT_100).map(to_f64), None);
}

#[test]
fn test_scale_valid_i16() {
    assert_eq!(scale_valid_i16(9800, SCALE_PERCENT_100).map(to_f64), Some(98.0));
    assert_eq!(scale_valid_i16(-32767, SCALE_PERCENT_100).map(to_f64), None);
}

#[test]
fn scaled_values_are_exact() {
    assert_eq!(scale_valid_i16(150, SCALE_IR_AMP_10), Some(Scaled { raw: 150, scale: Scale::Tenth }));
    assert_eq!(scale_valid_i16(150, SCALE_IR_AMP_10).unwrap().hundredths(), 1500);
    assert_eq!(scale_valid_i16(-75, SCALE_RATE_1).unwrap().hundredths(), -7500);
    assert_eq!(scale_valid_i16(9801, SCALE_PERCENT_100).unwrap().hundredths(), 9801);
    assert_eq!(scale_valid_i16(32767, SCALE_RATE_1).unwrap().hundredths(), 3_276_700);
    assert_eq!(scale_valid_i16(-32000, SCALE_RATE_1).unwrap().hundredths(), -3_200_000);
    assert_eq!(scale_i16(Some(-32767), SCALE_VOLUME_10), Some(Scaled { raw: -32767, scale: Scale::Tenth }));
    assert_eq!(scale_valid_i16(-32001, SCALE_VOLUME_10), None);
    assert_eq!(scale_valid_i16(-32000, SCALE_VOLUME_10).map(to_f64), Some(-3200.0));
    assert_eq!(Scale::Unit.steps_per_unit(), 1);
    assert_eq!(Scale::Tenth.steps_per_unit(), 10);
    assert_eq!(Scale::Hundredth.steps_per_unit(), 100);
}

#[test]
fn reserved_values() {
    assert_eq!(DATA_INVALID_LIMIT, -32001);
    assert!(is_invalid(-32001));
    assert!(is_invalid(-32768));
    assert!(!is_invalid(-32000));
    assert!(!is_invalid(0));
    assert_eq!(check_valid(-32001), None);
    assert_eq!(check_valid(-32000), Some(-32000));
    assert_eq!(check_valid(75), Some(75));
    assert_eq!(get_special_value(-32767), Some(SpecialValue::Invalid));
    assert_eq!(get_special_value(-32766), Some(SpecialValue::NotUpdated));
    assert_eq!(get_special_value(-32765), Some(SpecialValue::Invalid));
    assert_eq!(get_special_value(-32764), Some(SpecialValue::UnderRange));
    assert_eq!(get_special_value(-32763), Some(SpecialValue::OverRange));
    assert_eq!(get_special_value(-32762), Some(SpecialValue::NotCalibrated));
    assert_eq!(get_special_value(-32500), Some(SpecialValue::Invalid));
    assert_eq!(get_special_value(-32001), Some(SpecialValue::Invalid));
    assert_eq!(get_special_value(-32000), None);
    assert_eq!(get_special_value(0), None);
    assert_eq!(get_special_value(32767), None);
    for raw in i16::MIN..=i16::MAX {
        assert_eq!(get_special_value(raw).is_some(), is_invalid(raw));
        assert_eq!(check_valid(raw).is_none(), is_invalid(raw));
    }
}

#[test]
fn protocol_constants() {
    assert_eq!(FRAME_CHAR, 0x7E);
    assert_eq!(CTRL_CHAR, 0x7D);
    assert_eq!(BIT5, 0x20);
    assert_eq!(BIT5_COMPL, 0x5F);
    assert_eq!(HEADER_SIZE, 40);
    assert_eq!(MAX_RECORD_SIZE, HEADER_SIZE + MAX_DATA_SIZE);
    assert_eq!(MAX_SUBRECORDS, 8);
    assert_eq!(EOL_SUBRECORD_LIST, 0xFF);
    assert_eq!(PHDBCL_REQ_ALL, 0x000E);
    assert_eq!(MAX_TOTAL_SAMPLE_RATE, 600);
}

#[test]
fn codes_round_trip() {
    for code in 0..=255u8 {
        match DriLevel::from_u8(code) {
            Some(level) => {
                assert!((2..=10).contains(&code));
                assert_eq!(level.code(), code);
            }
            None => assert!(!(2..=10).contains(&code)),
        }
        match PhdbSubrecordType::from_u8(code) {
            Some(t) => assert_eq!(t.code(), code),
            None => assert!(code > 4),
        }
        match PhdbClass::from_u8(code) {
            Some(c) => assert_eq!(c.code(), code),
            None => assert!(code > 3),
        }
        match EcgLeadType::from_u8(code) {
            Some(l) => assert_eq!(l.code(), code),
            None => assert!(code > 7),
        }
        match HrSource::from_u8(code) {
            Some(s) => assert_eq!(s.code(), code),
            None => assert!(code > 12),
        }
        match WaveformType::from_u8(code) {
            Some(wf) => assert_eq!(wf.code(), code),
            None => assert!(code == 22 || (25..=28).contains(&code) || code == 30 || code == 31 || code == 33 || code == 34 || code > 38),
        }
    }
    for code in 0..=300u16 {
        match DriMainType::from_u16(code) {
            Some(t) => assert_eq!(t.code(), code),
            None => assert!(![0, 1, 4, 5, 8].contains(&code)),
        }
        match InvasivePressureLabel::from_u16(code) {
            Some(l) => assert_eq!(l.code(), code),
            None => assert!(code > 22),
        }
        match TemperatureLabel::from_u16(code) {
            Some(l) => assert_eq!(l.code(), code),
            None => assert!(code > 18),
        }
        match AnesthesiaAgent::from_u16(code) {
            Some(a) => assert_eq!(a.code(), code),
            None => assert!(code > 6),
        }
    }
}

#[test]
fn names_and_years() {
    assert_eq!(DriLevel::Level95.year_str(), "'95");
    assert_eq!(DriLevel::Level00.year_str(), "'01");
    assert_eq!(DriLevel::Level04.year_str(), "'09");
    assert_eq!(DriLevel::from_u8(8), Some(DriLevel::Level02));
    assert_eq!(DriLevel::Level02.year_str(), "'03");
    assert_eq!(EcgLeadType::NotSelected.name(), "NOT_SELECTED");
    assert_eq!(EcgLeadType::Avr.name(), "AVR");
    assert_eq!(InvasivePressureLabel::Art.name(), "ART");
    assert_eq!(InvasivePressureLabel::Femv.name(), "FEMV");
    assert_eq!(InvasivePressureLabel::from_u16(19), Some(InvasivePressureLabel::Icp2));
    assert_eq!(TemperatureLabel::Tymp.name(), "TYMP");
    assert_eq!(TemperatureLabel::from_u16(18), Some(TemperatureLabel::T6));
    assert_eq!(AnesthesiaAgent::NoAgent.name(), "NONE");
    assert_eq!(AnesthesiaAgent::Sev.name(), "SEV");
    assert_eq!(HrSource::from_u8(9), Some(HrSource::EcgMortara));
    assert_eq!(WaveformType::Ent100.name(), "ENT_100");
    assert_eq!(WaveformType::SpiLoopStatus.name(), "SPI_LOOP_STATUS");
    assert_eq!(WaveformType::from_u8(23), Some(WaveformType::Vol));
    assert_eq!(WaveformType::from_u8(22), None);
}

#[test]
fn waveform_sample_rates() {
    let rate = |wf: WaveformType| wf.info().samples_per_second;
    for wf in [WaveformType::Ecg1, WaveformType::Ecg2, WaveformType::Ecg3, WaveformType::EegBis] {
        assert_eq!(rate(wf), 300);
    }
    for wf in [
        WaveformType::Invp1,
        WaveformType::Invp4,
        WaveformType::Invp5,
        WaveformType::Invp8,
        WaveformType::Pleth,
        WaveformType::Pleth2,
        WaveformType::Eeg1,
        WaveformType::Eeg4,
        WaveformType::Ent100,
    ] {
        assert_eq!(rate(wf), 100);
    }
    for wf in [
        WaveformType::Co2,
        WaveformType::O2,
        WaveformType::N2o,
        WaveformType::Aa,
        WaveformType::Awp,
        WaveformType::Flow,
        WaveformType::Vol,
        WaveformType::Resp,
        WaveformType::TonoPress,
        WaveformType::SpiLoopStatus,
    ] {
        assert_eq!(rate(wf), 25);
    }
    assert_eq!(rate(WaveformType::Cmd), 0);
    let info = get_waveform_info(WaveformType::Resp);
    assert_eq!(info.waveform_type, WaveformType::Resp);
    assert_eq!(info.unit, "Ω (1/100)");
    assert_eq!(info.description, "ECG impedance respiration");
    let info = WaveformType::Cmd.info();
    assert_eq!(info.unit, "");
    assert_eq!(info.description, "Command");
    assert_eq!(WaveformType::Invp3.info().unit, "mmHg (1/100)");
    assert_eq!(WaveformType::Pleth.info().description, "Plethysmograph");
}

#[test]
fn status_flags() {
    let ecg = EcgStatus::from_status(0b0011_1111_1000_0111);
    assert!(ecg.exists && ecg.active && ecg.asystole && ecg.noise && ecg.artifact);
    assert!(ecg.learning && ecg.pacer_on && ecg.channel1_off && ecg.channel2_off && ecg.channel3_off);
    let ecg = EcgStatus::from_status(0b0100_0000_0111_1000);
    assert_eq!(ecg, EcgStatus::default());

    let nibp = NibpStatus::from_label(0x03, 0x01F8);
    assert!(nibp.exists && nibp.active);
    assert!(nibp.auto_mode && nibp.stat_mode && nibp.measuring && nibp.stasis_on);
    assert!(nibp.calibrating && nibp.data_older_than_60s);
    // Existence and activity come from the status word, not from the label.
    let nibp = NibpStatus::from_label(0x00, 0x01F8);
    assert!(!nibp.exists && !nibp.active && nibp.auto_mode && nibp.data_older_than_60s);
    let nibp = NibpStatus::from_label(0x03, 0xFE07);
    assert!(nibp.exists && nibp.active && !nibp.auto_mode && !nibp.data_older_than_60s);
    let nibp = NibpStatus::from_label(0x01, 0x10);
    assert!(nibp.exists && !nibp.active && nibp.stat_mode && !nibp.auto_mode);
    let nibp = NibpStatus::from_label(0x02, 0x00);
    assert!(!nibp.exists && nibp.active && !nibp.stat_mode);
    assert_eq!(NibpStatus::from_label(0xFFFC, 0xFE07), NibpStatus::default());

    let co2 = Co2Status::from_status(0x03FF);
    assert!(co2.exists && co2.active && co2.apnea_co2 && co2.calibrating_sensor && co2.zeroing_sensor);
    assert!(co2.occlusion && co2.air_leak && co2.apnea_from_resp && co2.apnea_deactivated && co2.wet_condition);
    assert_eq!(Co2Status::from_status(0xFC00), Co2Status::default());

    assert_eq!(Spo2Status::from_status(0x02), Spo2Status { exists: false, active: true });
    assert_eq!(GenericStatus::from_status(0x01), GenericStatus { exists: true, active: false });
    assert_eq!(
        GasStatus::from_status(0x0C),
        GasStatus { exists: false, active: false, calibrating: true, measurement_off: true }
    );

    let flow = FlowVolStatus::from_status(0x03FF);
    assert!(flow.exists && flow.active && flow.disconnection && flow.calibrating);
    assert!(flow.zeroing && flow.obstruction && flow.leak && flow.measurement_off);
    assert_eq!(flow.tv_base, TidalVolumeBase::Stpd);
    assert_eq!(FlowVolStatus::from_status(0x0100).tv_base, TidalVolumeBase::Ntpd);
    assert_eq!(FlowVolStatus::from_status(0xFC00), FlowVolStatus::default());
    assert_eq!(TidalVolumeBase::default(), TidalVolumeBase::Atpd);
    assert_eq!(TidalVolumeBase::from_status(0x0200), TidalVolumeBase::Btps);
}
