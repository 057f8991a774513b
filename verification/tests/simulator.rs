use ge_dri_prototype::protocol::framing::create_frame;
use ge_dri_prototype::constants::WaveformType;
use ge_dri_prototype::protocol::header::{
    create_phdb_request, create_waveform_request, WaveformRequestType,
};
use ge_dri_prototype::simulator::{
    create_phdb_frame, create_waveform_frame, parse_request, simulated_frame, write_group,
    write_group_header, write_i16, write_u16, write_u32, Request, SimulatedVitals,
};

/// The bytes of a waveform request with the given type slots, laid out by hand.
fn raw_waveform_request(slots: &[u8], request_type: u16) -> Vec<u8> {
    let mut record = vec![0u8; 72];
    record[0] = 72;
    record[16] = 1;
    record[23] = 0xFF;
    record[40..42].copy_from_slice(&request_type.to_le_bytes());
    for (i, slot) in slots.iter().take(8).enumerate() {
        record[44 + i] = *slot;
    }
    if slots.len() < 8 {
        record[44 + slots.len()] = 0xFF;
    }
    record
}

fn request_of(bytes: &[u8]) -> Option<String> {
    parse_request(bytes).map(|r| format!("{:?}", r))
}

#[test]
fn simulator_reads_requests() {
    let frame = create_frame(&create_phdb_request(1, 10, 0x0E));
    assert!(matches!(parse_request(&frame), Some(Request::PhdbRequest { interval: 10 })));
    let frame = create_frame(&create_phdb_request(1, 0, 0));
    assert!(matches!(parse_request(&frame), Some(Request::StopAll)));
    let request = create_waveform_request(
        &[WaveformType::Ecg1, WaveformType::Pleth, WaveformType::Co2],
        WaveformRequestType::Start,
    )
    .unwrap();
    assert_eq!(request, raw_waveform_request(&[1, 8, 9], 0));
    let frame = create_frame(&request);
    match parse_request(&frame) {
        Some(Request::WaveformRequest { waveforms }) => assert_eq!(waveforms, vec![1, 8, 9]),
        other => panic!("unexpected request: {:?}", other),
    }
    let frame = create_frame(&create_waveform_request(&[], WaveformRequestType::Stop).unwrap());
    assert!(matches!(parse_request(&frame), Some(Request::StopAll)));
}

#[test]
fn simulator_skips_noise_and_unstuffs() {
    let mut request = create_phdb_request(1, 0x7E7D, 0x0E);
    request[2] = 0x7E;
    let mut bytes = vec![0x01, 0x02];
    bytes.extend(create_frame(&request));
    bytes.extend(create_frame(&raw_waveform_request(&[1], 0)));
    assert!(matches!(parse_request(&bytes), Some(Request::PhdbRequest { interval: 0x7E7D })));
}

#[test]
fn simulator_ignores_what_is_no_request() {
    assert_eq!(request_of(&[]), None);
    assert_eq!(request_of(&[0x7E, 0x7E]), None);
    assert_eq!(request_of(&create_frame(&[0u8; 38])), None);
    let mut record = vec![0u8; 60];
    record[16] = 4;
    assert_eq!(request_of(&create_frame(&record)), None);
    // A request for physiological data that ends before the interval.
    let mut record = vec![0u8; 41];
    record[0] = 1;
    let mut bytes = vec![0x7E];
    bytes.extend(&record);
    assert_eq!(request_of(&bytes), None);
    bytes.push(0x05);
    bytes.push(0x00);
    assert!(matches!(parse_request(&bytes), Some(Request::PhdbRequest { interval: 5 })));
    // A waveform request that ends before its type slots.
    let mut record = vec![0u8; 51];
    record[16] = 1;
    let mut bytes = vec![0x7E];
    bytes.extend(&record);
    assert_eq!(request_of(&bytes), None);
}

#[test]
fn waveform_slots_of_zero_are_skipped() {
    let frame = create_frame(&raw_waveform_request(&[1, 0, 8, 0, 0, 9, 2, 3], 0));
    match parse_request(&frame) {
        Some(Request::WaveformRequest { waveforms }) => assert_eq!(waveforms, vec![1, 8, 9, 2, 3]),
        other => panic!("unexpected request: {:?}", other),
    }
}

#[test]
fn writers() {
    let mut data = vec![0xAAu8; 12];
    write_u16(&mut data, 1, 0x1234);
    write_u32(&mut data, 4, 0x89ABCDEF);
    write_i16(&mut data, 9, (-2, 3));
    assert_eq!(data, vec![0xAA, 0x34, 0x12, 0xAA, 0xEF, 0xCD, 0xAB, 0x89, 0xAA, 0xFA, 0xFF, 0xAA]);
    let mut data = vec![0xAAu8; 8];
    write_group_header(&mut data, 1, 0x0003);
    assert_eq!(data, vec![0xAA, 3, 0, 0, 0, 0, 0, 0xAA]);
    let mut data = vec![0xAAu8; 12];
    write_group(&mut data, 0, 0x0102_0304, &[75, -32767]);
    assert_eq!(data, vec![4, 3, 2, 1, 0, 0, 0x4B, 0, 0x01, 0x80, 0xAA, 0xAA]);
    let mut data = vec![0u8; 2];
    write_i16(&mut data, 0, (-128, 256));
    assert_eq!(data, vec![0x00, 0x80]);
    write_i16(&mut data, 0, (100, 100));
    assert_eq!(data, 10000i16.to_le_bytes().to_vec());
}

#[test]
fn simulated_physiological_record_layout() {
    let v = SimulatedVitals {
        hr: 75,
        rr: 16,
        nibp_sys: 12000,
        nibp_dia: 8000,
        nibp_mean: 9333,
        temp: 3700,
        spo2: 9800,
        etco2: 520,
        ppeak: 2000,
        peep: 500,
        tv: 5000,
        mv: 800,
    };
    let record = create_phdb_frame(7, 0x0102_0304, &v);
    assert_eq!(record.len(), 1128);
    assert_eq!(&record[0..4], &[0x68, 0x04, 7, 8]);
    assert_eq!(&record[6..10], &[4, 3, 2, 1]);
    assert_eq!(&record[16..24], &[0, 0, 0, 0, 1, 0, 0, 0xFF]);
    assert_eq!(&record[40..44], &[4, 3, 2, 1]);
    assert_eq!(&record[44..60], &[3, 0, 0, 0, 0, 0, 75, 0, 0, 0, 0, 0, 0, 0, 16, 0]);
    assert_eq!(&record[60..116], &[0u8; 56]);
    assert_eq!(&record[116..122], &[3, 0, 0, 0, 0, 0]);
    assert_eq!(&record[122..124], &12000i16.to_le_bytes());
    assert_eq!(&record[128..130], &75i16.to_le_bytes());
    assert_eq!(&record[136..138], &3700i16.to_le_bytes());
    assert_eq!(&record[168..170], &9800i16.to_le_bytes());
    assert_eq!(&record[172..174], &150i16.to_le_bytes());
    assert_eq!(&record[188..190], &7600i16.to_le_bytes());
    assert_eq!(&record[200..204], &[1, 0, 0, 0]);
    assert_eq!(&record[210..214], &[1, 0, 0, 0]);
    assert_eq!(&record[242..244], &800i16.to_le_bytes());
    assert_eq!(&record[244..1126], &[0u8; 882][..]);
    assert_eq!(&record[1126..1128], &[1, 0]);
}

#[test]
fn simulated_waveform_record_layout() {
    let samples: Vec<i16> = (0..150).map(|i| i as i16 - 75).collect();
    let record = create_waveform_frame(3, 9, &[1, 8], &samples);
    assert_eq!(record.len(), 40 + 2 * 156);
    assert_eq!(&record[0..4], &[0x60, 0x01, 3, 8]);
    assert_eq!(&record[16..18], &[1, 0]);
    assert_eq!(&record[18..27], &[0, 0, 1, 156, 0, 8, 0, 0, 0xFF]);
    assert_eq!(&record[40..46], &[75, 0, 0, 0, 0, 0]);
    assert_eq!(&record[46..48], &(-75i16).to_le_bytes());
    assert_eq!(&record[196..202], &[75, 0, 0, 0, 0, 0]);
    assert_eq!(&record[202..204], &0i16.to_le_bytes());
    assert_eq!(&record[350..352], &74i16.to_le_bytes());
}

#[test]
fn simulated_waveform_record_holds_at_most_six() {
    let samples = vec![1i16; 450];
    let record = create_waveform_frame(0, 0, &[1, 2, 3, 4, 5, 6, 7, 8], &samples);
    assert_eq!(record.len(), 40 + 6 * 156);
    assert_eq!(record[35], 6);
    assert_eq!(record[38], 0xFF);
    let empty = create_waveform_frame(0, 0, &[], &[]);
    assert_eq!(empty.len(), 40);
    assert_eq!(empty[20], 0xFF);
}

#[test]
fn simulated_frame_sums_the_stuffed_bytes() {
    assert_eq!(simulated_frame(&[1, 2, 3]), vec![0x7E, 1, 2, 3, 6, 0x7E]);
    assert_eq!(simulated_frame(&[1, 2, 3]), create_frame(&[1, 2, 3]));
    // 0x7E travels as 7D 5E, and both bytes enter the checksum.
    assert_eq!(simulated_frame(&[0x7E]), vec![0x7E, 0x7D, 0x5E, 0xDB, 0x7E]);
    assert_ne!(simulated_frame(&[0x7E]), create_frame(&[0x7E]));
    // A checksum of 0x7D is escaped.
    assert_eq!(simulated_frame(&[0x70, 0x0D]), vec![0x7E, 0x70, 0x0D, 0x7D, 0x5D, 0x7E]);
    assert_eq!(simulated_frame(&[]), vec![0x7E, 0x00, 0x7E]);
}
