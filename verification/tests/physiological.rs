use ge_dri_prototype::constants::dri_types::{PhdbClass, PhdbSubrecordType};
use ge_dri_prototype::constants::physiological::{
    AnesthesiaAgent, EcgLeadType, HrSource, InvasivePressureLabel, TemperatureLabel,
};
use ge_dri_prototype::constants::scaling::{Scale, Scaled};
use ge_dri_prototype::constants::SpecialValue;
use ge_dri_prototype::decode::measurement::Measurement;
use ge_dri_prototype::decode::physiological::{
    decode_basic_class, decode_physiological, lead_of, parse_aa_group, parse_co2_group,
    parse_ecg_group, parse_flow_vol_group, parse_gas_group, parse_invp_group, parse_nibp_group,
    parse_spo2_group, parse_temp_group, PhysiologicalData,
};
use ge_dri_prototype::decode::status_bits::TidalVolumeBase;
use ge_dri_prototype::DriError;

fn to_f64(value: Scaled) -> f64 {
    match value.scale {
        Scale::Unit => value.raw as f64,
        Scale::Tenth => value.raw as f64 * 0.1,
        Scale::Hundredth => value.raw as f64 * 0.01,
    }
}

fn reading(m: Measurement) -> Option<f64> {
    m.value().map(to_f64)
}

fn group(status: u32, label: u16, fields: &[i16]) -> Vec<u8> {
    let mut bytes = Vec::new();
    bytes.extend_from_slice(&status.to_le_bytes());
    bytes.extend_from_slice(&label.to_le_bytes());
    for f in fields {
        bytes.extend_from_slice(&f.to_le_bytes());
    }
    bytes
}

#[test]
fn ecg_group_decode() {
    let mut bytes = vec![0x03, 0x00, 0x00, 0x00, 0x21, 0x00, 0x4B, 0x00];
    bytes.extend_from_slice(&[0u8; 8]);
    let ecg = parse_ecg_group(&bytes, 0).unwrap();
    assert!(ecg.status.exists);
    assert!(ecg.status.active);
    assert_eq!(reading(ecg.hr), Some(75.0));
    // Label 0x0021: code 1 in bits 0 to 3, code 2 in bits 4 to 7, code 0 in bits 8 to 11.
    assert_eq!(ecg.lead1, EcgLeadType::I);
    assert_eq!(ecg.lead2, EcgLeadType::II);
    assert_eq!(ecg.lead3, EcgLeadType::NotSelected);
    assert_eq!(ecg.hr_source, Some(HrSource::Unknown));
}

#[test]
fn ecg_leads_follow_the_label_nibbles() {
    let bytes = group(0x0003, 0x0012, &[75, 0, 0, 0, 0]);
    let ecg = parse_ecg_group(&bytes, 0).unwrap();
    assert_eq!(ecg.lead1, EcgLeadType::II);
    assert_eq!(ecg.lead2, EcgLeadType::I);
    assert_eq!(ecg.lead3, EcgLeadType::NotSelected);

    let bytes = group(0x0003, 0xF7F6, &[75, 0, 0, 0, 0]);
    let ecg = parse_ecg_group(&bytes, 0).unwrap();
    assert_eq!(ecg.lead1, EcgLeadType::Avf);
    assert_eq!(ecg.lead2, EcgLeadType::NotSelected);
    assert_eq!(ecg.lead3, EcgLeadType::V);
}

#[test]
fn unknown_lead_code_is_not_selected() {
    for code in 8u8..=15 {
        assert_eq!(lead_of(code), EcgLeadType::NotSelected);
    }
    assert_eq!(lead_of(0), EcgLeadType::NotSelected);
    assert_eq!(lead_of(3), EcgLeadType::III);
    assert_eq!(lead_of(200), EcgLeadType::NotSelected);
}

#[test]
fn ecg_fields_and_hr_source() {
    // HR source 6 (pleth) in bits 3 to 6, asystole in bit 2, noise in bit 7.
    let status = 0x03 | (6 << 3) | (1 << 2) | (1 << 7) | (1 << 13);
    let bytes = group(status, 0, &[60, -150, 25, -32766, 14]);
    let ecg = parse_ecg_group(&bytes, 0).unwrap();
    assert_eq!(ecg.hr_source, Some(HrSource::Pleth));
    assert!(ecg.status.asystole);
    assert!(ecg.status.noise);
    assert!(ecg.status.channel3_off);
    assert!(!ecg.status.artifact);
    assert_eq!(ecg.hr, Measurement::Value(Scaled { raw: 60, scale: Scale::Unit }));
    assert_eq!(ecg.st1, Measurement::Value(Scaled { raw: -150, scale: Scale::Hundredth }));
    assert_eq!(reading(ecg.st1), Some(-1.5));
    assert_eq!(reading(ecg.st2), Some(0.25));
    assert_eq!(ecg.st3, Measurement::Missing(SpecialValue::NotUpdated));
    assert_eq!(reading(ecg.imp_rr), Some(14.0));

    let bytes = group(13 << 3, 0, &[0, 0, 0, 0, 0]);
    assert_eq!(parse_ecg_group(&bytes, 0).unwrap().hr_source, None);
    let bytes = group(12 << 3, 0, &[0, 0, 0, 0, 0]);
    assert_eq!(parse_ecg_group(&bytes, 0).unwrap().hr_source, Some(HrSource::Pleth2));
}

#[test]
fn spo2_with_sentinel() {
    let mut bytes = vec![0x03, 0, 0, 0, 0, 0];
    bytes.extend_from_slice(&[0x01, 0x82]);
    bytes.extend_from_slice(&[0x4B, 0x00]);
    bytes.extend_from_slice(&[0x96, 0x00, 0x00, 0x00]);
    let spo2 = parse_spo2_group(&bytes, 0).unwrap();
    assert_eq!(reading(spo2.spo2), None);
    assert_eq!(spo2.spo2.kind(), Some(SpecialValue::Invalid));
    assert_eq!(reading(spo2.pr), Some(75.0));
    assert_eq!(spo2.pr.kind(), None);
    assert_eq!(reading(spo2.ir_amp), Some(15.0));
    assert!(spo2.status.exists && spo2.status.active);
}

#[test]
fn spo2_with_the_invalid_sentinel_itself() {
    // -32767 travels as the bytes 01 80.
    let mut bytes = vec![0x03, 0, 0, 0, 0, 0];
    bytes.extend_from_slice(&[0x01, 0x80, 0x4B, 0x00, 0x00, 0x00, 0x00, 0x00]);
    let spo2 = parse_spo2_group(&bytes, 0).unwrap();
    assert_eq!(spo2.spo2, Measurement::Missing(SpecialValue::Invalid));
    assert_eq!(reading(spo2.pr), Some(75.0));
}

#[test]
fn every_sentinel_has_its_kind() {
    for (raw, kind) in [
        (-32767i16, SpecialValue::Invalid),
        (-32766, SpecialValue::NotUpdated),
        (-32765, SpecialValue::Invalid),
        (-32764, SpecialValue::UnderRange),
        (-32763, SpecialValue::OverRange),
        (-32762, SpecialValue::NotCalibrated),
        (-32761, SpecialValue::Invalid),
        (-32001, SpecialValue::Invalid),
        (-32768, SpecialValue::Invalid),
    ] {
        for scale in [Scale::Unit, Scale::Tenth, Scale::Hundredth] {
            let m = Measurement::decode(raw, scale);
            assert_eq!(m, Measurement::Missing(kind));
            assert_eq!(m.value(), None);
            assert_eq!(m.kind(), Some(kind));
        }
    }
}

#[test]
fn every_other_raw_value_is_a_measurement() {
    for raw in -32000i16..=32767 {
        let m = Measurement::decode(raw, Scale::Tenth);
        assert_eq!(m.value(), Some(Scaled { raw, scale: Scale::Tenth }));
        assert_eq!(m.kind(), None);
        assert_eq!(m.value().unwrap().hundredths(), raw as i32 * 10);
    }
    for raw in i16::MIN..=-32001 {
        let m = Measurement::decode(raw, Scale::Tenth);
        assert!(m.value().is_none());
        assert!(m.kind().is_some());
    }
}

#[test]
fn measurement_at_reads_little_endian() {
    let data = [0xAA, 0x48, 0x26, 0x01, 0x80];
    assert_eq!(
        Measurement::at(&data, 1, Scale::Hundredth),
        Measurement::Value(Scaled { raw: 9800, scale: Scale::Hundredth })
    );
    assert_eq!(Measurement::at(&data, 3, Scale::Unit), Measurement::Missing(SpecialValue::Invalid));
}

#[test]
fn invasive_pressure_group() {
    let bytes = group(0x01, 2, &[12050, 8025, 9500, 72]);
    let invp = parse_invp_group(&bytes, 0).unwrap();
    assert!(invp.status.exists);
    assert!(!invp.status.active);
    assert_eq!(invp.label, Some(InvasivePressureLabel::Cvp));
    assert_eq!(reading(invp.sys), Some(120.5));
    assert_eq!(reading(invp.dia), Some(80.25));
    assert_eq!(reading(invp.mean), Some(95.0));
    assert_eq!(reading(invp.hr), Some(72.0));
    let bytes = group(0x01, 23, &[0, 0, 0, 0]);
    assert_eq!(parse_invp_group(&bytes, 0).unwrap().label, None);
}

#[test]
fn nibp_group_takes_modes_from_the_label() {
    let label = (1 << 3) | (1 << 5) | (1 << 8);
    let bytes = group(0x02, label, &[12000, 8000, 9333, 70]);
    let nibp = parse_nibp_group(&bytes, 0).unwrap();
    assert!(!nibp.status.exists);
    assert!(nibp.status.active);
    assert!(nibp.status.auto_mode);
    assert!(!nibp.status.stat_mode);
    assert!(nibp.status.measuring);
    assert!(!nibp.status.stasis_on);
    assert!(!nibp.status.calibrating);
    assert!(nibp.status.data_older_than_60s);
    assert_eq!(reading(nibp.sys), Some(120.0));
    assert_eq!(reading(nibp.dia), Some(80.0));
    assert_eq!(reading(nibp.mean), Some(93.33));
    assert_eq!(reading(nibp.hr), Some(70.0));
}

#[test]
fn temperature_group() {
    let bytes = group(0x03, 3, &[3700]);
    let temp = parse_temp_group(&bytes, 0).unwrap();
    assert_eq!(temp.label, Some(TemperatureLabel::Tymp));
    assert_eq!(reading(temp.temp), Some(37.0));
    assert_eq!(parse_temp_group(&bytes[..7], 0), None);
}

#[test]
fn co2_group_with_ambient_pressure() {
    let bytes = group(0x03 | (1 << 5), 0, &[520, 40, 16, 7600]);
    let co2 = parse_co2_group(&bytes, 0).unwrap();
    assert!(co2.status.occlusion);
    assert!(!co2.status.air_leak);
    assert_eq!(reading(co2.et), Some(5.2));
    assert_eq!(reading(co2.fi), Some(0.4));
    assert_eq!(reading(co2.rr), Some(16.0));
    assert_eq!(reading(co2.amb_press), Some(76.0));
    assert_eq!(co2.amb_press.value().unwrap().scale, Scale::Hundredth);
}

#[test]
fn gas_and_agent_groups() {
    let bytes = group(0x03 | (1 << 3), 0, &[2100, 2150]);
    let gas = parse_gas_group(&bytes, 0).unwrap();
    assert!(gas.status.measurement_off);
    assert!(!gas.status.calibrating);
    assert_eq!(reading(gas.et), Some(21.0));
    assert_eq!(reading(gas.fi), Some(21.5));

    let bytes = group(0x03, 6, &[180, 200, 110]);
    let aa = parse_aa_group(&bytes, 0).unwrap();
    assert_eq!(aa.agent, Some(AnesthesiaAgent::Sev));
    assert_eq!(reading(aa.et), Some(1.8));
    assert_eq!(reading(aa.fi), Some(2.0));
    assert_eq!(reading(aa.mac), Some(1.1));
    let bytes = group(0x03, 1, &[0, 0, 0]);
    assert_eq!(parse_aa_group(&bytes, 0).unwrap().agent, Some(AnesthesiaAgent::NoAgent));
    let bytes = group(0x03, 7, &[0, 0, 0]);
    assert_eq!(parse_aa_group(&bytes, 0).unwrap().agent, None);
}

#[test]
fn flow_and_volume_group() {
    let status = 0x03 | (2 << 8) | (1 << 6);
    let bytes = group(status, 0, &[16, 2000, 500, 1800, 5000, 4950, 5000, 800]);
    let flow = parse_flow_vol_group(&bytes, 0).unwrap();
    assert_eq!(flow.status.tv_base, TidalVolumeBase::Btps);
    assert!(flow.status.leak);
    assert!(!flow.status.disconnection);
    assert_eq!(reading(flow.rr), Some(16.0));
    assert_eq!(reading(flow.ppeak), Some(20.0));
    assert_eq!(reading(flow.peep), Some(5.0));
    assert_eq!(reading(flow.pplat), Some(18.0));
    assert_eq!(reading(flow.tv_insp), Some(500.0));
    assert_eq!(reading(flow.tv_exp), Some(495.0));
    assert_eq!(reading(flow.compliance), Some(50.0));
    assert_eq!(reading(flow.mv_exp), Some(8.0));
    for (bits, base) in [
        (0u32, TidalVolumeBase::Atpd),
        (1, TidalVolumeBase::Ntpd),
        (2, TidalVolumeBase::Btps),
        (3, TidalVolumeBase::Stpd),
    ] {
        let bytes = group(bits << 8, 0, &[0; 8]);
        assert_eq!(parse_flow_vol_group(&bytes, 0).unwrap().status.tv_base, base);
    }
}

#[test]
fn fields_are_read_whatever_the_status_says() {
    let bytes = group(0, 0, &[9800, 75, 150, 0]);
    let spo2 = parse_spo2_group(&bytes, 0).unwrap();
    assert!(!spo2.status.exists);
    assert!(!spo2.status.active);
    assert_eq!(reading(spo2.spo2), Some(98.0));
}

fn basic_class_data() -> Vec<u8> {
    let mut data = Vec::new();
    data.extend(group(0x03, 0x0021, &[75, 10, -20, 30, 14])); // ECG at 0
    data.extend(group(0x03, 1, &[12000, 8000, 9300, 75])); // InvP1 at 16
    data.extend(group(0x01, 2, &[800, 400, 600, -32767])); // InvP2 at 30
    data.extend(group(0x00, 0, &[-32767, -32767, -32767, -32767])); // InvP3 at 44
    data.extend(group(0x00, 0, &[-32767, -32767, -32767, -32767])); // InvP4 at 58
    data.extend(group(0x03, 0x08, &[11800, 7900, 9200, 74])); // NIBP at 72
    data.extend(group(0x03, 1, &[3710])); // Temp1 at 86
    data.extend(group(0x03, 7, &[3650])); // Temp2 at 94
    data.extend(group(0x00, 0, &[-32767])); // Temp3 at 102
    data.extend(group(0x00, 0, &[-32767])); // Temp4 at 110
    data.extend(group(0x03, 0, &[9800, 75, 150, 0])); // SpO2 at 118
    data.extend(group(0x03, 0, &[520, 40, 16, 7600])); // CO2 at 132
    data.extend(group(0x03, 0, &[1600, 2100])); // O2 at 146
    data.extend(group(0x01, 0, &[0, 0])); // N2O at 156
    data.extend(group(0x01, 4, &[120, 150, 100])); // AA at 166
    data.extend(group(0x03, 0, &[16, 2000, 500, 1800, 5000, 5000, 5000, 800])); // Flow at 178
    assert_eq!(data.len(), 200);
    data
}

#[test]
fn basic_class_layout() {
    let data = basic_class_data();
    let mut phys = PhysiologicalData::empty(1, PhdbClass::Basic, PhdbSubrecordType::Displ);
    decode_basic_class(&data, &mut phys);
    assert_eq!(phys.timestamp, 1);
    assert_eq!(reading(phys.ecg.unwrap().hr), Some(75.0));
    assert_eq!(phys.invp1.unwrap().label, Some(InvasivePressureLabel::Art));
    assert_eq!(reading(phys.invp1.unwrap().sys), Some(120.0));
    assert_eq!(phys.invp2.unwrap().label, Some(InvasivePressureLabel::Cvp));
    assert_eq!(phys.invp2.unwrap().hr.kind(), Some(SpecialValue::Invalid));
    assert!(!phys.invp3.unwrap().status.exists);
    assert_eq!(phys.invp4.unwrap().sys.value(), None);
    assert!(phys.nibp.unwrap().status.auto_mode);
    assert_eq!(reading(phys.nibp.unwrap().sys), Some(118.0));
    assert_eq!(phys.temp1.unwrap().label, Some(TemperatureLabel::Eso));
    assert_eq!(reading(phys.temp1.unwrap().temp), Some(37.1));
    assert_eq!(reading(phys.temp2.unwrap().temp), Some(36.5));
    assert_eq!(phys.temp3.unwrap().temp.value(), None);
    assert_eq!(phys.temp4.unwrap().temp.value(), None);
    assert_eq!(reading(phys.spo2.unwrap().spo2), Some(98.0));
    assert_eq!(reading(phys.co2.unwrap().et), Some(5.2));
    assert_eq!(reading(phys.o2.unwrap().fi), Some(21.0));
    assert!(!phys.n2o.unwrap().status.active);
    assert_eq!(phys.aa.unwrap().agent, Some(AnesthesiaAgent::Iso));
    assert_eq!(reading(phys.flow_vol.unwrap().tv_exp), Some(500.0));
    assert_eq!(phys.flow_vol, parse_flow_vol_group(&data, 178));
    assert_eq!(phys.n2o, parse_gas_group(&data, 156));
    assert_eq!(phys.spo2, parse_spo2_group(&data, 118));
    assert_eq!(phys.nibp, parse_nibp_group(&data, 72));
}

#[test]
fn truncated_data_leaves_later_groups_absent() {
    let data = basic_class_data();
    let ends = [16usize, 30, 44, 58, 72, 86, 94, 102, 110, 118, 132, 146, 156, 166, 178, 200];
    for len in 0..=200usize {
        let mut phys = PhysiologicalData::empty(0, PhdbClass::Basic, PhdbSubrecordType::Displ);
        decode_basic_class(&data[..len], &mut phys);
        let present = [
            phys.ecg.is_some(),
            phys.invp1.is_some(),
            phys.invp2.is_some(),
            phys.invp3.is_some(),
            phys.invp4.is_some(),
            phys.nibp.is_some(),
            phys.temp1.is_some(),
            phys.temp2.is_some(),
            phys.temp3.is_some(),
            phys.temp4.is_some(),
            phys.spo2.is_some(),
            phys.co2.is_some(),
            phys.o2.is_some(),
            phys.n2o.is_some(),
            phys.aa.is_some(),
            phys.flow_vol.is_some(),
        ];
        for (i, end) in ends.iter().enumerate() {
            assert_eq!(present[i], len >= *end, "group {} at length {}", i, len);
        }
    }
}

#[test]
fn physiological_subrecord() {
    let mut sub = vec![0u8; 1088];
    sub[0..4].copy_from_slice(&1_700_000_000u32.to_le_bytes());
    sub[4..204].copy_from_slice(&basic_class_data());
    let phys = decode_physiological(&sub, PhdbSubrecordType::Trend10s, PhdbClass::Basic).unwrap();
    assert_eq!(phys.timestamp, 1_700_000_000);
    assert_eq!(phys.class, PhdbClass::Basic);
    assert_eq!(phys.subtype, PhdbSubrecordType::Trend10s);
    assert_eq!(reading(phys.ecg.unwrap().hr), Some(75.0));
    assert_eq!(reading(phys.flow_vol.unwrap().mv_exp), Some(8.0));
}

#[test]
fn extended_classes_are_not_decoded() {
    let mut sub = vec![0u8; 1088];
    sub[0..4].copy_from_slice(&77u32.to_le_bytes());
    sub[4..204].copy_from_slice(&basic_class_data());
    for class in [PhdbClass::Ext1, PhdbClass::Ext2, PhdbClass::Ext3] {
        let phys = decode_physiological(&sub, PhdbSubrecordType::Displ, class).unwrap();
        assert_eq!(phys, PhysiologicalData::empty(77, class, PhdbSubrecordType::Displ));
    }
}

#[test]
fn short_subrecords() {
    for len in 0..4 {
        assert_eq!(
            decode_physiological(&vec![0u8; len], PhdbSubrecordType::Displ, PhdbClass::Basic),
            Err(DriError::ShortSubrecord)
        );
    }
    let mut sub = vec![0u8; 4 + 100];
    sub[4..].copy_from_slice(&basic_class_data()[..100]);
    let phys = decode_physiological(&sub, PhdbSubrecordType::Displ, PhdbClass::Basic).unwrap();
    assert!(phys.temp1.is_some());
    assert!(phys.temp2.is_none());
    assert!(phys.flow_vol.is_none());
    let phys = decode_physiological(&[1, 0, 0, 0], PhdbSubrecordType::Displ, PhdbClass::Basic).unwrap();
    assert_eq!(phys, PhysiologicalData::empty(1, PhdbClass::Basic, PhdbSubrecordType::Displ));
}

#[test]
fn groups_at_an_offset() {
    let mut data = vec![0xEE; 5];
    data.extend(group(0x03, 0, &[9700, 60, 100, 0]));
    assert_eq!(reading(parse_spo2_group(&data, 5).unwrap().spo2), Some(97.0));
    assert_eq!(parse_spo2_group(&data, 6), None);
    assert_eq!(parse_spo2_group(&data, usize::MAX), None);
    assert_eq!(parse_ecg_group(&data, 4), None);
}
