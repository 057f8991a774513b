use ge_dri_prototype::constants::waveforms::get_waveform_info;
use ge_dri_prototype::constants::WaveformType;
use ge_dri_prototype::decode::waveforms::{
    decode_waveform, decode_waveforms, waveform_skip_reason, waveform_warnings, SkipReason,
    WaveformHeader, WaveformStatus, WaveformWarning,
};
use ge_dri_prototype::protocol::DriHeader;

#[test]
fn test_waveform_status() {
    let status = WaveformStatus::from_u16(0x0001);
    assert!(status.gap);
    assert!(!status.pacer_detected);

    let status = WaveformStatus::from_u16(0x0004);
    assert!(!status.gap);
    assert!(status.pacer_detected);
}

#[test]
fn waveform_status_bits() {
    let status = WaveformStatus::from_u16(0x0008);
    assert_eq!(status, WaveformStatus { gap: false, pacer_detected: false, lead_off: true });
    let status = WaveformStatus::from_u16(0xFFF2);
    assert_eq!(status, WaveformStatus { gap: false, pacer_detected: false, lead_off: false });
    let status = WaveformStatus::from_u16(0x000D);
    assert_eq!(status, WaveformStatus { gap: true, pacer_detected: true, lead_off: true });
}

fn subrecord(count: u16, status: u16, samples: &[i16]) -> Vec<u8> {
    let mut bytes = Vec::new();
    bytes.extend_from_slice(&count.to_le_bytes());
    bytes.extend_from_slice(&status.to_le_bytes());
    bytes.extend_from_slice(&[0, 0]);
    for s in samples {
        bytes.extend_from_slice(&s.to_le_bytes());
    }
    bytes
}

fn header(timestamp: u32, descriptors: &[(u16, u8)]) -> DriHeader {
    let mut bytes = vec![0u8; 42];
    bytes[3] = 8;
    bytes[6..10].copy_from_slice(&timestamp.to_le_bytes());
    bytes[16] = 1;
    for (slot, (offset, sr_type)) in descriptors.iter().enumerate() {
        bytes[18 + 3 * slot..20 + 3 * slot].copy_from_slice(&offset.to_le_bytes());
        bytes[20 + 3 * slot] = *sr_type;
    }
    if descriptors.len() < 8 {
        bytes[20 + 3 * descriptors.len()] = 0xFF;
    }
    DriHeader::parse(&bytes).unwrap()
}

#[test]
fn ecg1_frame_of_75_samples() {
    let samples: Vec<i16> = (0..75).map(|i| (i * 20 - 700) as i16).collect();
    let mut data = vec![0x4B, 0x00, 0x00, 0x00, 0x00, 0x00];
    for s in &samples {
        data.extend_from_slice(&s.to_le_bytes());
    }
    let header = header(1_700_000_123, &[(0, 1)]);
    let waveforms = decode_waveforms(&header, &data).unwrap();
    assert_eq!(waveforms.len(), 1);
    let wf = &waveforms[0];
    assert_eq!(wf.waveform_type, WaveformType::Ecg1);
    assert_eq!(wf.sample_rate, 300);
    assert_eq!(wf.samples.len(), 75);
    assert!(!wf.status.gap);
    assert!(!wf.status.pacer_detected);
    assert!(!wf.status.lead_off);
    assert_eq!(wf.samples, samples);
    assert_eq!(wf.timestamp, 1_700_000_123);
    assert_eq!(wf.declared_count, 75);
    assert_eq!(wf.unit, "μV");
}

#[test]
fn truncated_samples_set_the_gap_flag() {
    let mut sub = subrecord(10, 0, &[1, -2, 3]);
    let wf = decode_waveform(5, WaveformType::Pleth, &sub).unwrap();
    assert_eq!(wf.samples, vec![1, -2, 3]);
    assert_eq!(wf.declared_count, 10);
    assert!(wf.status.gap);
    assert_eq!(wf.sample_rate, 100);
    // A trailing odd byte is no sample.
    sub.push(0x55);
    let wf = decode_waveform(5, WaveformType::Pleth, &sub).unwrap();
    assert_eq!(wf.samples, vec![1, -2, 3]);
    assert!(wf.status.gap);
}

#[test]
fn bytes_after_the_declared_samples_are_ignored() {
    let sub = subrecord(2, 0x0004, &[100, 200, 300, 400]);
    let wf = decode_waveform(5, WaveformType::Co2, &sub).unwrap();
    assert_eq!(wf.samples, vec![100, 200]);
    assert!(!wf.status.gap);
    assert!(wf.status.pacer_detected);
    assert_eq!(wf.sample_rate, 25);
}

#[test]
fn gap_reported_by_the_monitor_is_kept() {
    let sub = subrecord(2, 0x0001, &[100, 200]);
    let wf = decode_waveform(5, WaveformType::Co2, &sub).unwrap();
    assert_eq!(wf.samples.len(), 2);
    assert!(wf.status.gap);
}

#[test]
fn sample_count_never_exceeds_the_declared_count() {
    for declared in 0u16..6 {
        for present in 0usize..6 {
            let samples: Vec<i16> = (0..present as i16).collect();
            let wf = decode_waveform(0, WaveformType::Ecg2, &subrecord(declared, 0, &samples)).unwrap();
            assert!(wf.samples.len() <= declared as usize);
            assert_eq!(wf.samples.len(), present.min(declared as usize));
            assert_eq!(wf.status.gap, wf.samples.len() < declared as usize);
        }
    }
}

#[test]
fn subrecord_shorter_than_its_header_gives_nothing() {
    assert!(decode_waveform(0, WaveformType::Ecg1, &[0x4B, 0, 0, 0, 0]).is_none());
    assert!(decode_waveform(0, WaveformType::Ecg1, &[]).is_none());
    let wf = decode_waveform(0, WaveformType::Ecg1, &[0x4B, 0, 0, 0, 0, 0]).unwrap();
    assert!(wf.samples.is_empty());
    assert!(wf.status.gap);
    assert_eq!(WaveformHeader::parse(&[1, 2, 3, 4, 5]), None);
    assert_eq!(
        WaveformHeader::parse(&[1, 2, 3, 4, 5, 6, 7]),
        Some(WaveformHeader { act_len: 0x0201, status: 0x0403, reserved: 0x0605 })
    );
}

#[test]
fn samples_are_signed_little_endian() {
    let wf = decode_waveform(0, WaveformType::Ecg1, &[3, 0, 0, 0, 0, 0, 0xFF, 0xFF, 0x00, 0x80, 0xFF, 0x7F]).unwrap();
    assert_eq!(wf.samples, vec![-1, -32768, 32767]);
}

#[test]
fn waveforms_come_in_table_order_and_skip_what_holds_none() {
    let ecg = subrecord(2, 0, &[10, 20]);
    let pleth = subrecord(3, 0x0008, &[1, 2, 3]);
    let co2 = subrecord(1, 0, &[7]);
    let mut data = Vec::new();
    data.extend_from_slice(&[0u8; 4]); // command subrecord
    data.extend_from_slice(&ecg); // at 4
    data.extend_from_slice(&[9u8; 3]); // unknown subrecord at 14
    data.extend_from_slice(&pleth); // at 17
    data.extend_from_slice(&co2); // at 29
    let header = header(42, &[(0, 0), (4, 1), (14, 22), (17, 8), (29, 9)]);
    let waveforms = decode_waveforms(&header, &data).unwrap();
    assert_eq!(waveforms.len(), 3);
    assert_eq!(waveforms[0].waveform_type, WaveformType::Ecg1);
    assert_eq!(waveforms[0].samples, vec![10, 20]);
    assert_eq!(waveforms[1].waveform_type, WaveformType::Pleth);
    assert_eq!(waveforms[1].samples, vec![1, 2, 3]);
    assert!(waveforms[1].status.lead_off);
    assert_eq!(waveforms[2].waveform_type, WaveformType::Co2);
    assert_eq!(waveforms[2].samples, vec![7]);
    for wf in &waveforms {
        assert_eq!(wf.timestamp, 42);
        assert_eq!(wf.sample_rate, get_waveform_info(wf.waveform_type).samples_per_second);
    }
    assert_eq!(waveform_skip_reason(&header, &data, 0), Some(SkipReason::Command));
    assert_eq!(waveform_skip_reason(&header, &data, 1), None);
    assert_eq!(waveform_skip_reason(&header, &data, 2), Some(SkipReason::UnknownType(22)));
    assert_eq!(waveform_skip_reason(&header, &data, 3), None);
    assert_eq!(waveform_skip_reason(&header, &data, 4), None);
}

#[test]
fn subrecords_outside_the_data_are_skipped() {
    let ecg = subrecord(1, 0, &[5]);
    let header = header(42, &[(0, 1), (8, 8), (100, 9)]);
    let mut data = ecg.clone();
    data.extend_from_slice(&[1, 0, 0]);
    let waveforms = decode_waveforms(&header, &data).unwrap();
    assert_eq!(waveforms.len(), 1);
    assert_eq!(waveforms[0].samples, vec![5]);
    assert_eq!(waveform_skip_reason(&header, &data, 0), None);
    assert_eq!(waveform_skip_reason(&header, &data, 1), Some(SkipReason::OutOfBounds));
    assert_eq!(waveform_skip_reason(&header, &data, 2), Some(SkipReason::OutOfBounds));
    let header = self::header(42, &[(0, 1), (8, 8)]);
    assert_eq!(waveform_skip_reason(&header, &data, 1), Some(SkipReason::ShortHeader));
    assert_eq!(decode_waveforms(&header, &data).unwrap().len(), 1);
}

#[test]
fn warnings_name_what_is_skipped_but_for_the_command() {
    let ecg = subrecord(2, 0, &[10, 20]);
    let mut data = Vec::new();
    data.extend_from_slice(&[0u8; 4]); // command subrecord
    data.extend_from_slice(&ecg); // at 4
    data.extend_from_slice(&[9u8; 3]); // unknown subrecord at 14
    data.extend_from_slice(&[1, 0, 0]); // a pleth subrecord of three bytes at 17
    let header = header(42, &[(0, 0), (4, 1), (14, 22), (17, 8), (300, 9)]);
    assert_eq!(
        waveform_warnings(&header, &data),
        vec![
            WaveformWarning { index: 2, reason: SkipReason::UnknownType(22) },
            WaveformWarning { index: 3, reason: SkipReason::OutOfBounds },
            WaveformWarning { index: 4, reason: SkipReason::OutOfBounds },
        ]
    );
    let header = self::header(42, &[(0, 0), (4, 1), (14, 22), (17, 8)]);
    assert_eq!(
        waveform_warnings(&header, &data),
        vec![
            WaveformWarning { index: 2, reason: SkipReason::UnknownType(22) },
            WaveformWarning { index: 3, reason: SkipReason::ShortHeader },
        ]
    );
    let header = self::header(42, &[(0, 0), (4, 1)]);
    assert!(waveform_warnings(&header, &data[..14]).is_empty());
    assert_eq!(decode_waveforms(&header, &data[..14]).unwrap().len(), 1);
}
