use ge_dri_prototype::constants::waveforms::{
    calculate_total_sample_rate, validate_waveform_set, waveform_set_within_limit,
};
use ge_dri_prototype::constants::WaveformType;
use ge_dri_prototype::protocol::header::{create_phdb_request, create_waveform_request};
use ge_dri_prototype::protocol::request::{
    build_phdb_request, build_stop_all, build_waveform_request, waveform_codes, RequestError,
    WaveformRequestType,
};

#[test]
fn displayed_values_request() {
    let request = build_phdb_request(1, 5, 0x000E);
    assert_eq!(request.len(), 49);
    assert_eq!(&request[0..2], &[0x31, 0x00]);
    assert_eq!(&request[16..18], &[0x00, 0x00]);
    assert_eq!(request[40], 0x01);
    assert_eq!(&request[41..43], &[0x05, 0x00]);
    assert_eq!(&request[43..47], &[0x0E, 0x00, 0x00, 0x00]);
    assert_eq!(&request[47..49], &[0x00, 0x00]);
    assert_eq!(&request[18..24], &[0, 0, 0, 0, 0, 0xFF]);
}

#[test]
fn displayed_interval_is_at_least_five_seconds() {
    for interval in 1u16..5 {
        assert_eq!(&build_phdb_request(1, interval, 0)[41..43], &[5, 0]);
    }
    assert_eq!(&build_phdb_request(1, 0, 0)[41..43], &[0, 0]);
    assert_eq!(&build_phdb_request(1, 6, 0)[41..43], &[6, 0]);
    assert_eq!(&build_phdb_request(1, 3600, 0)[41..43], &[0x10, 0x0E]);
}

#[test]
fn trend_interval_is_kept() {
    assert_eq!(&build_phdb_request(2, 1, 0)[41..43], &[1, 0]);
    assert_eq!(&build_phdb_request(3, 4, 0)[41..43], &[4, 0]);
    assert_eq!(build_phdb_request(3, 4, 0)[40], 3);
}

#[test]
fn waveform_request_for_ecg_and_pleth() {
    let request =
        build_waveform_request(&[WaveformType::Ecg1, WaveformType::Pleth], WaveformRequestType::Start)
            .unwrap();
    assert_eq!(request.len(), 72);
    assert_eq!(&request[0..2], &[72, 0]);
    assert_eq!(&request[16..18], &[1, 0]);
    assert_eq!(&request[40..44], &[0, 0, 0, 0]);
    assert_eq!(&request[44..47], &[1, 8, 0xFF]);
    assert_eq!(&request[47..], &[0u8; 25]);
}

#[test]
fn waveform_set_above_600_hz_is_rejected() {
    let set = [WaveformType::Ecg1, WaveformType::Ecg2, WaveformType::Co2];
    assert_eq!(calculate_total_sample_rate(&set), 625);
    assert_eq!(
        build_waveform_request(&set, WaveformRequestType::Start),
        Err(RequestError::SampleRateExceeded)
    );
    assert_eq!(
        build_waveform_request(&set, WaveformRequestType::Stop),
        Err(RequestError::SampleRateExceeded)
    );
    assert!(validate_waveform_set(&set).is_err());
    assert!(!waveform_set_within_limit(&set));
}

#[test]
fn waveform_set_of_exactly_600_hz_is_accepted() {
    let set = [WaveformType::Ecg1, WaveformType::EegBis];
    assert_eq!(calculate_total_sample_rate(&set), 600);
    assert!(build_waveform_request(&set, WaveformRequestType::Start).is_ok());
    assert!(validate_waveform_set(&set).is_ok());
    assert!(waveform_set_within_limit(&set));
    let set = [WaveformType::Co2; 24];
    assert_eq!(calculate_total_sample_rate(&set), 600);
    assert!(validate_waveform_set(&set).is_ok());
    let set = [WaveformType::Co2; 25];
    assert!(validate_waveform_set(&set).is_err());
}

#[test]
fn refusal_names_the_total_rate() {
    let message = validate_waveform_set(&[WaveformType::Ecg1; 3]).unwrap_err();
    assert_eq!(message, "Total sample rate 900 exceeds maximum 600");
}

#[test]
fn huge_waveform_set_is_rejected_without_overflow() {
    let set = vec![WaveformType::Ecg1; 1000];
    assert!(!waveform_set_within_limit(&set));
    assert_eq!(
        validate_waveform_set(&set).unwrap_err(),
        "Total sample rate 300000 exceeds maximum 600"
    );
}

#[test]
fn start_request_without_waveforms_is_built() {
    let request = build_waveform_request(&[], WaveformRequestType::Start).unwrap();
    assert_eq!(request.len(), 72);
    assert_eq!(&request[0..2], &[0x48, 0x00]);
    assert_eq!(&request[16..18], &[0x01, 0x00]);
    assert_eq!(&request[40..45], &[0, 0, 0, 0, 0xFF]);
    assert_eq!(&request[45..], &[0u8; 27]);
}

#[test]
fn stop_request_without_waveforms() {
    let request = build_waveform_request(&[], WaveformRequestType::Stop).unwrap();
    assert_eq!(&request[40..45], &[1, 0, 0, 0, 0xFF]);
}

#[test]
fn empty_set_has_rate_zero() {
    assert_eq!(calculate_total_sample_rate(&[]), 0);
    assert!(validate_waveform_set(&[]).is_ok());
    assert_eq!(calculate_total_sample_rate(&[WaveformType::Cmd; 5]), 0);
}

#[test]
fn codes_of_waveform_types() {
    assert_eq!(
        waveform_codes(&[WaveformType::Ecg1, WaveformType::Vol, WaveformType::Pleth2, WaveformType::Cmd]),
        vec![1, 23, 38, 0]
    );
}

#[test]
fn stop_all_is_three_requests_in_order() {
    let requests = build_stop_all();
    assert_eq!(requests.len(), 3);
    assert_eq!(requests[0], build_phdb_request(1, 0, 0));
    assert_eq!(requests[1], build_phdb_request(3, 0, 0));
    assert_eq!(requests[2], build_waveform_request(&[], WaveformRequestType::Stop).unwrap());
    assert_eq!(requests[0][40], 1);
    assert_eq!(&requests[0][41..43], &[0, 0]);
    assert_eq!(requests[1][40], 3);
    assert_eq!(&requests[2][40..42], &[1, 0]);
}

#[test]
fn both_names_of_a_builder_give_the_same_request() {
    for (subtype, interval) in [(1u8, 0u16), (1, 3), (1, 5), (1, 3600), (2, 1), (3, 4)] {
        assert_eq!(
            build_phdb_request(subtype, interval, 0x0E),
            create_phdb_request(subtype, interval, 0x0E)
        );
    }
    let sets: [&[WaveformType]; 4] = [
        &[],
        &[WaveformType::Ecg1, WaveformType::Pleth],
        &[WaveformType::Ecg1, WaveformType::Ecg2, WaveformType::Pleth],
        &[WaveformType::Co2; 9],
    ];
    for set in sets {
        for request in [WaveformRequestType::Start, WaveformRequestType::Stop] {
            assert_eq!(build_waveform_request(set, request), create_waveform_request(set, request));
        }
    }
}

#[test]
fn total_rate_does_not_depend_on_the_order() {
    let set = [WaveformType::Ecg1, WaveformType::Pleth, WaveformType::Co2, WaveformType::Pleth];
    let reordered = [WaveformType::Pleth, WaveformType::Co2, WaveformType::Pleth, WaveformType::Ecg1];
    assert_eq!(calculate_total_sample_rate(&set), 525);
    assert_eq!(calculate_total_sample_rate(&reordered), 525);
    assert_eq!(validate_waveform_set(&set).is_ok(), validate_waveform_set(&reordered).is_ok());
}
