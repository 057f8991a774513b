//! The request surface: the transmission requests a monitor honours.
//!
//! A request is a record: a header and a payload, ready to be handed to the
//! frame encoder.

use vstd::prelude::*;
use crate::constants::waveforms::WaveformType;
use crate::protocol::header::{
    create_phdb_request,
    create_waveform_request,
    spec_effective_interval,
    spec_phdb_request,
    spec_waveform_request,
    waveform_request_bytes,
};

pub use crate::protocol::header::{
    spec_waveform_codes,
    spec_waveform_request_error,
    waveform_codes,
    RequestError,
    WaveformRequestType,
    MIN_DISPLAYED_INTERVAL,
    PHDB_DISPLAYED,
    PHDB_TREND_10S,
    PHDB_TREND_60S,
};

verus! {

/// Builds a request for physiological data: displayed values (`subtype` 1),
/// 10 s trends (2) or 60 s trends (3) every `interval_seconds`, for the
/// classes of `class_mask`. An interval of 0 stops the transmission; an
/// interval of 1 to 4 seconds for displayed values is raised to 5.
pub fn build_phdb_request(subtype: u8, interval_seconds: u16, class_mask: u32) -> (request: Vec<u8>)
    ensures
        request@ == spec_phdb_request(
            subtype,
            spec_effective_interval(subtype, interval_seconds),
            class_mask,
        ),
        request@.len() == 49,
{
    create_phdb_request(subtype, interval_seconds, class_mask)
}

/// Builds a request to start or stop the transmission of waveforms.
///
/// Refuses a set whose total sample rate exceeds 600 samples per second with
/// `SampleRateExceeded`, and nothing else. Of more than eight waveforms the
/// first eight are requested.
pub fn build_waveform_request(types: &[WaveformType], request: WaveformRequestType) -> (result:
    Result<Vec<u8>, RequestError>)
    ensures
        match result {
            Ok(bytes) => spec_waveform_request_error(types@) is None && bytes@
                == spec_waveform_request(spec_waveform_codes(types@), request.spec_code())
                && bytes@.len() == 72,
            Err(e) => spec_waveform_request_error(types@) == Some(e),
        },
{
    create_waveform_request(types, request)
}

/// Builds the three requests that stop every transmission: displayed values
/// with interval 0, 60 s trends with interval 0, and a waveform stop, in this
/// order.
pub fn build_stop_all() -> (requests: Vec<Vec<u8>>)
    ensures
        requests@.len() == 3,
        requests@[0]@ == spec_phdb_request(PHDB_DISPLAYED, 0, 0),
        requests@[1]@ == spec_phdb_request(PHDB_TREND_60S, 0, 0),
        requests@[2]@ == spec_waveform_request(Seq::empty(), 1),
{
    let mut requests: Vec<Vec<u8>> = Vec::new();
    requests.push(create_phdb_request(PHDB_DISPLAYED, 0, 0));
    requests.push(create_phdb_request(PHDB_TREND_60S, 0, 0));
    let none: Vec<u8> = Vec::new();
    requests.push(waveform_request_bytes(none.as_slice(), 1));
    requests
}

} // verus!
