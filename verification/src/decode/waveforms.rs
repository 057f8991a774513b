//! Decoder of waveform records.
//!
//! Every subrecord of a waveform record starts with a 6-byte header: the
//! number of samples it declares, a status word and a reserved word. The
//! samples follow as signed 16-bit values, low byte first.

use vstd::prelude::*;
use crate::DriError;
use crate::constants::waveforms::WaveformType;
use crate::decode::subrecords::{spec_le_i16, spec_le_u16};
use crate::protocol::header::{spec_subrecord_range, DriHeader, SubrecordDescriptor};

verus! {

/// Length of the header of a waveform subrecord.
pub const WAVEFORM_HEADER_SIZE: usize = 6;

/// Status flags of a waveform subrecord.
#[derive(Debug, Clone, Copy, PartialEq, Eq, Structural)]
pub struct WaveformStatus {
    /// Samples were lost.
    pub gap: bool,
    /// A pacer was detected (ECG only).
    pub pacer_detected: bool,
    /// A lead is off (ECG only).
    pub lead_off: bool,
}

impl WaveformStatus {
    /// The flags of a status word: bit 0 is the gap, bit 2 the pacer, bit 3
    /// the lead.
    pub open spec fn spec_from_u16(status: u16) -> Self {
        WaveformStatus {
            gap: status & 0x0001 != 0,
            pacer_detected: status & 0x0004 != 0,
            lead_off: status & 0x0008 != 0,
        }
    }

    /// Reads the flags out of a status word.
    pub fn from_u16(status: u16) -> (r: Self)
        ensures
            r == Self::spec_from_u16(status),
    {
        Self {
            gap: (status & 0x0001) != 0,
            pacer_detected: (status & 0x0004) != 0,
            lead_off: (status & 0x0008) != 0,
        }
    }
}

/// Header of a waveform subrecord.
#[derive(Debug, Clone, Copy, PartialEq, Eq, Structural)]
pub struct WaveformHeader {
    /// Number of samples the subrecord declares.
    pub act_len: u16,
    /// Status word.
    pub status: u16,
    /// Reserved word.
    pub reserved: u16,
}

impl WaveformHeader {
    /// The header at the start of a subrecord, if six bytes are there.
    pub open spec fn spec_parse(data: Seq<u8>) -> Option<Self> {
        if data.len() < 6 {
            None
        } else {
            Some(
                WaveformHeader {
                    act_len: spec_le_u16(data[0], data[1]),
                    status: spec_le_u16(data[2], data[3]),
                    reserved: spec_le_u16(data[4], data[5]),
                },
            )
        }
    }

    /// Reads the header at the start of a subrecord. `None` where the
    /// subrecord is shorter than a header.
    pub fn parse(data: &[u8]) -> (r: Option<Self>)
        ensures
            r == Self::spec_parse(data@),
    {
        if data.len() < WAVEFORM_HEADER_SIZE {
            return None;
        }
        let act_len = (data[0] as u16) + (data[1] as u16) * 256;
        let status = (data[2] as u16) + (data[3] as u16) * 256;
        let reserved = (data[4] as u16) + (data[5] as u16) * 256;
        Some(Self { act_len, status, reserved })
    }
}

/// The samples of one waveform subrecord.
#[derive(Debug, Clone)]
pub struct WaveformData {
    /// Time of the record in seconds since 1970-01-01 UTC.
    pub timestamp: u32,
    /// Waveform type.
    pub waveform_type: WaveformType,
    /// Samples, in the order in which they were taken.
    pub samples: Vec<i16>,
    /// Samples per second.
    pub sample_rate: u16,
    /// Physical unit of a sample.
    pub unit: &'static str,
    /// Number of samples the subrecord declared.
    pub declared_count: u16,
    /// Status flags. The gap flag is set by the monitor or because fewer
    /// samples arrived than the subrecord declared.
    pub status: WaveformStatus,
}

/// Mathematical value of the samples of one waveform subrecord.
pub struct WaveformModel {
    pub timestamp: u32,
    pub waveform_type: WaveformType,
    pub samples: Seq<i16>,
    pub sample_rate: u16,
    pub unit: Seq<char>,
    pub declared_count: u16,
    pub status: WaveformStatus,
}

impl View for WaveformData {
    type V = WaveformModel;

    open spec fn view(&self) -> WaveformModel {
        WaveformModel {
            timestamp: self.timestamp,
            waveform_type: self.waveform_type,
            samples: self.samples@,
            sample_rate: self.sample_rate,
            unit: self.unit@,
            declared_count: self.declared_count,
            status: self.status,
        }
    }
}

/// The values of a sequence of waveforms.
pub open spec fn spec_waveform_views(waveforms: Seq<WaveformData>) -> Seq<WaveformModel> {
    waveforms.map_values(|w: WaveformData| w@)
}

/// Number of samples decoded from a subrecord of `sub_len` bytes that
/// declares `declared` samples: as many whole samples as follow the header,
/// and no more than declared.
pub open spec fn spec_sample_count(sub_len: int, declared: int) -> int {
    let fit = (sub_len - 6) / 2;
    if declared <= fit {
        declared
    } else {
        fit
    }
}

/// The first `count` samples of a subrecord.
pub open spec fn spec_samples(sub: Seq<u8>, count: int) -> Seq<i16> {
    Seq::new(count as nat, |j: int| spec_le_i16(sub[6 + 2 * j], sub[7 + 2 * j]))
}

/// Why a subrecord of a waveform record yields no waveform.
#[derive(Debug, Clone, Copy, PartialEq, Eq, Structural)]
pub enum SkipReason {
    /// The subrecord is the command subrecord, which carries no samples.
    Command,
    /// The subrecord type is not a waveform type.
    UnknownType(u8),
    /// The descriptor does not point into the data region.
    OutOfBounds,
    /// The subrecord is shorter than its header.
    ShortHeader,
}

/// What a waveform of the given type decodes to from the bytes of its
/// subrecord, `None` where they are fewer than a header.
pub open spec fn spec_decode_waveform(timestamp: u32, waveform_type: WaveformType, sub: Seq<u8>)
    -> Option<WaveformModel> {
    match WaveformHeader::spec_parse(sub) {
        None => None,
        Some(header) => {
            let count = spec_sample_count(sub.len() as int, header.act_len as int);
            let flags = WaveformStatus::spec_from_u16(header.status);
            Some(
                WaveformModel {
                    timestamp,
                    waveform_type,
                    samples: spec_samples(sub, count),
                    sample_rate: waveform_type.spec_sample_rate(),
                    unit: waveform_type.spec_unit(),
                    declared_count: header.act_len,
                    status: WaveformStatus {
                        gap: flags.gap || count < header.act_len,
                        pacer_detected: flags.pacer_detected,
                        lead_off: flags.lead_off,
                    },
                },
            )
        },
    }
}

/// What the subrecord at `index` of a waveform record yields: its waveform,
/// or the reason why it is skipped.
pub open spec fn spec_waveform_at(
    descriptors: Seq<SubrecordDescriptor>,
    timestamp: u32,
    data: Seq<u8>,
    index: int,
) -> Result<WaveformModel, SkipReason> {
    match WaveformType::spec_from_u8(descriptors[index].sr_type) {
        None => Err(SkipReason::UnknownType(descriptors[index].sr_type)),
        Some(WaveformType::Cmd) => Err(SkipReason::Command),
        Some(waveform_type) => match spec_subrecord_range(descriptors, data.len() as int, index) {
            Err(_) => Err(SkipReason::OutOfBounds),
            Ok((start, end)) => match spec_decode_waveform(
                timestamp,
                waveform_type,
                data.subrange(start, end),
            ) {
                None => Err(SkipReason::ShortHeader),
                Some(waveform) => Ok(waveform),
            },
        },
    }
}

/// The waveforms of the first `count` subrecords of a record, in table order.
pub open spec fn spec_waveforms_upto(
    descriptors: Seq<SubrecordDescriptor>,
    timestamp: u32,
    data: Seq<u8>,
    count: nat,
) -> Seq<WaveformModel>
    decreases count,
{
    if count == 0 {
        Seq::empty()
    } else {
        let before = spec_waveforms_upto(descriptors, timestamp, data, (count - 1) as nat);
        match spec_waveform_at(descriptors, timestamp, data, count - 1) {
            Ok(waveform) => before.push(waveform),
            Err(_) => before,
        }
    }
}

/// The waveforms of a record: those of all its subrecords, in table order.
pub open spec fn spec_decode_waveforms(
    descriptors: Seq<SubrecordDescriptor>,
    timestamp: u32,
    data: Seq<u8>,
) -> Seq<WaveformModel> {
    spec_waveforms_upto(descriptors, timestamp, data, descriptors.len())
}

/// Decodes one waveform of the given type from the bytes of its subrecord.
/// `None` exactly where the subrecord is shorter than its header. Where fewer
/// samples follow the header than it declares, the whole samples that follow
/// are decoded and the gap flag is set.
pub fn decode_waveform(timestamp: u32, waveform_type: WaveformType, sub_data: &[u8]) -> (r: Option<
    WaveformData,
>)
    ensures
        match r {
            Some(waveform) => spec_decode_waveform(timestamp, waveform_type, sub_data@) == Some(
                waveform@,
            ),
            None => spec_decode_waveform(timestamp, waveform_type, sub_data@) is None,
        },
        r matches Some(waveform) ==> {
            &&& waveform.samples@.len() <= waveform.declared_count
            &&& waveform.samples@.len() < waveform.declared_count ==> waveform.status.gap
            &&& waveform.status.gap ==> waveform.samples@.len() < waveform.declared_count
                || sub_data@[2] % 2 == 1
        },
{
    let wf_header = match WaveformHeader::parse(sub_data) {
        Some(h) => h,
        None => {
            return None;
        },
    };
    let sample_count = wf_header.act_len as usize;
    let fit = (sub_data.len() - WAVEFORM_HEADER_SIZE) / 2;
    let count = if sample_count <= fit {
        sample_count
    } else {
        fit
    };
    let mut samples: Vec<i16> = Vec::new();
    let mut sample_idx: usize = 0;
    while sample_idx < count
        invariant
            sample_idx <= count,
            count <= 65535,
            6 + 2 * count <= sub_data@.len(),
            samples@ == spec_samples(sub_data@, sample_idx as int),
        decreases count - sample_idx,
    {
        let offset = 6 + sample_idx * 2;
        let unsigned: u16 = (sub_data[offset] as u16) + (sub_data[offset + 1] as u16) * 256;
        let sample = if unsigned < 32768 {
            unsigned as i16
        } else {
            (unsigned as i32 - 65536) as i16
        };
        samples.push(sample);
        proof {
            assert(samples@ =~= spec_samples(sub_data@, sample_idx + 1));
        }
        sample_idx = sample_idx + 1;
    }
    let info = waveform_type.info();
    let flags = WaveformStatus::from_u16(wf_header.status);
    let truncated = count < sample_count;
    proof {
        let status = wf_header.status;
        let low = sub_data@[2];
        assert(status & 0x0001 != 0 ==> status % 2 == 1) by (bit_vector);
        assert(status % 2 == low % 2);
    }
    Some(
        WaveformData {
            timestamp,
            waveform_type,
            samples,
            sample_rate: info.samples_per_second,
            unit: info.unit,
            declared_count: wf_header.act_len,
            status: WaveformStatus {
                gap: flags.gap || truncated,
                pacer_detected: flags.pacer_detected,
                lead_off: flags.lead_off,
            },
        },
    )
}

/// Says why the subrecord at `index` of a waveform record yields no
/// waveform, `None` where it yields one.
pub fn waveform_skip_reason(header: &DriHeader, data: &[u8], index: usize) -> (r: Option<
    SkipReason,
>)
    requires
        index < header.subrecords@.len(),
    ensures
        match r {
            Some(reason) => spec_waveform_at(
                header.subrecords@,
                header.r_time,
                data@,
                index as int,
            ) == Err::<WaveformModel, SkipReason>(reason),
            None => spec_waveform_at(header.subrecords@, header.r_time, data@, index as int) is Ok,
        },
{
    let sr_type = header.subrecords[index].sr_type;
    match WaveformType::from_u8(sr_type) {
        None => Some(SkipReason::UnknownType(sr_type)),
        Some(WaveformType::Cmd) => Some(SkipReason::Command),
        Some(_) => match header.get_subrecord_data(data, index) {
            Err(_) => Some(SkipReason::OutOfBounds),
            Ok(sub_data) => if sub_data.len() < WAVEFORM_HEADER_SIZE {
                Some(SkipReason::ShortHeader)
            } else {
                None
            },
        },
    }
}

/// A subrecord of a waveform record that holds no waveform though it is not
/// the command subrecord.
#[derive(Debug, Clone, Copy, PartialEq, Eq, Structural)]
pub struct WaveformWarning {
    /// Place of the subrecord in the descriptor table.
    pub index: usize,
    /// Why the subrecord is skipped.
    pub reason: SkipReason,
}

/// The warnings for the first `count` subrecords of a waveform record, in
/// table order: one for each subrecord that is skipped for another reason
/// than being the command subrecord.
pub open spec fn spec_warnings_upto(
    descriptors: Seq<SubrecordDescriptor>,
    timestamp: u32,
    data: Seq<u8>,
    count: nat,
) -> Seq<WaveformWarning>
    decreases count,
{
    if count == 0 {
        Seq::empty()
    } else {
        let before = spec_warnings_upto(descriptors, timestamp, data, (count - 1) as nat);
        match spec_waveform_at(descriptors, timestamp, data, count - 1) {
            Ok(_) => before,
            Err(SkipReason::Command) => before,
            Err(reason) => before.push(WaveformWarning { index: (count - 1) as usize, reason }),
        }
    }
}

/// Lists what a decoder of the record has to warn of: the subrecords of
/// unknown type, those whose descriptor does not point into the data region
/// and those shorter than their header, each with its place in the table.
/// The command subrecord is skipped without a warning.
pub fn waveform_warnings(header: &DriHeader, data: &[u8]) -> (warnings: Vec<WaveformWarning>)
    ensures
        warnings@ == spec_warnings_upto(
            header.subrecords@,
            header.r_time,
            data@,
            header.subrecords@.len(),
        ),
{
    let mut warnings: Vec<WaveformWarning> = Vec::new();
    let mut i: usize = 0;
    while i < header.subrecords.len()
        invariant
            i <= header.subrecords@.len(),
            warnings@ == spec_warnings_upto(header.subrecords@, header.r_time, data@, i as nat),
        decreases header.subrecords@.len() - i,
    {
        match waveform_skip_reason(header, data, i) {
            None => {},
            Some(SkipReason::Command) => {},
            Some(reason) => {
                warnings.push(WaveformWarning { index: i, reason });
            },
        }
        i = i + 1;
    }
    warnings
}

/// Decodes the waveforms of a waveform record, one for each subrecord that
/// holds one, in table order. The command subrecord, subrecords of unknown
/// type, subrecords whose descriptor does not point into the data region and
/// subrecords shorter than their header are skipped; `spec_waveform_at` says
/// which, and `waveform_warnings` lists those to warn of. The call always
/// succeeds.
pub fn decode_waveforms(header: &DriHeader, data: &[u8]) -> (result: Result<
    Vec<WaveformData>,
    DriError,
>)
    ensures
        result matches Ok(waveforms) && spec_waveform_views(waveforms@) == spec_decode_waveforms(
            header.subrecords@,
            header.r_time,
            data@,
        ),
{
    let mut waveforms: Vec<WaveformData> = Vec::new();
    let timestamp = header.timestamp();
    let mut i: usize = 0;
    proof {
        assert(spec_waveform_views(waveforms@) =~= Seq::empty());
    }
    while i < header.subrecords.len()
        invariant
            i <= header.subrecords@.len(),
            timestamp == header.r_time,
            spec_waveform_views(waveforms@) == spec_waveforms_upto(
                header.subrecords@,
                timestamp,
                data@,
                i as nat,
            ),
        decreases header.subrecords@.len() - i,
    {
        let sr_type = header.subrecords[i].sr_type;
        let ghost collected = spec_waveform_views(waveforms@);
        let waveform_type = WaveformType::from_u8(sr_type);
        let decoded = match waveform_type {
            None => None,
            Some(WaveformType::Cmd) => None,
            Some(wf) => match header.get_subrecord_data(data, i) {
                Err(_) => None,
                Ok(sub_data) => decode_waveform(timestamp, wf, sub_data),
            },
        };
        match decoded {
            Some(waveform) => {
                let ghost value = waveform@;
                waveforms.push(waveform);
                proof {
                    assert(spec_waveform_views(waveforms@) =~= collected.push(value));
                }
            },
            None => {},
        }
        i = i + 1;
    }
    Ok(waveforms)
}

/// A decoded waveform never holds more samples than its subrecord declares.
/// Where it holds fewer, its gap flag is set; and where the monitor itself
/// reports no gap, the gap flag is set exactly when it holds fewer. A gap
/// that the monitor reports is kept even where every sample arrived.
pub proof fn lemma_sample_count(timestamp: u32, waveform_type: WaveformType, sub: Seq<u8>)
    ensures
        spec_decode_waveform(timestamp, waveform_type, sub) matches Some(w) ==> {
            &&& w.samples.len() <= w.declared_count
            &&& w.samples.len() < w.declared_count ==> w.status.gap
            &&& !WaveformStatus::spec_from_u16(spec_le_u16(sub[2], sub[3])).gap ==> (w.status.gap
                <==> w.samples.len() < w.declared_count)
        },
{
}

/// Whether a waveform holds no more samples than declared and has its gap
/// flag set where it holds fewer.
pub open spec fn spec_count_within_declared(w: WaveformModel) -> bool {
    &&& w.samples.len() <= w.declared_count
    &&& w.samples.len() < w.declared_count ==> w.status.gap
}

/// Every waveform of a decoded record holds no more samples than its
/// subrecord declares, and has its gap flag set where it holds fewer.
pub proof fn lemma_record_sample_counts(
    descriptors: Seq<SubrecordDescriptor>,
    timestamp: u32,
    data: Seq<u8>,
    count: nat,
)
    ensures
        forall|i: int|
            0 <= i < spec_waveforms_upto(descriptors, timestamp, data, count).len()
                ==> spec_count_within_declared(
                #[trigger] spec_waveforms_upto(descriptors, timestamp, data, count)[i],
            ),
    decreases count,
{
    if count > 0 {
        lemma_record_sample_counts(descriptors, timestamp, data, (count - 1) as nat);
        let before = spec_waveforms_upto(descriptors, timestamp, data, (count - 1) as nat);
        let all = spec_waveforms_upto(descriptors, timestamp, data, count);
        match spec_waveform_at(descriptors, timestamp, data, count - 1) {
            Ok(waveform) => {
                assert(all == before.push(waveform));
                assert(spec_count_within_declared(waveform));
                assert forall|i: int| 0 <= i < all.len() implies spec_count_within_declared(
                    #[trigger] all[i],
                ) by {
                    if i < before.len() {
                        assert(all[i] == before[i]);
                    }
                }
            },
            Err(_) => {
                assert(all == before);
            },
        }
    }
}

} // verus!
