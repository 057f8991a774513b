//! The 40-byte record header and the request records built on it.
//!
//! Layout, little-endian throughout: total length (2 bytes), record number
//! (1), interface level (1), plug identifier (2), Unix time (4), six reserved
//! bytes, main type (2), then eight subrecord descriptors of three bytes each:
//! an offset into the data region (2) and a subrecord type (1). A descriptor
//! whose type is `0xFF` ends the table. The table starts at byte 18, so its
//! eighth slot lies across the end of the header, in bytes 39 to 41.

use vstd::prelude::*;
use crate::DriError;
use crate::constants::waveforms::{
    spec_valid_waveform_set,
    waveform_set_within_limit,
    WaveformType,
};
use crate::constants::{DriLevel, DriMainType, EOL_SUBRECORD_LIST, HEADER_SIZE, MAX_SUBRECORDS};
use crate::decode::subrecords::{spec_le_u16, spec_le_u32};

verus! {

/// Descriptor of a subrecord.
#[derive(Debug, Clone, Copy, PartialEq, Eq, Structural)]
pub struct SubrecordDescriptor {
    /// Offset of the subrecord from the start of the data region.
    pub offset: u16,
    /// Type of the subrecord.
    pub sr_type: u8,
}

/// Header of a record.
#[derive(Debug, Clone)]
pub struct DriHeader {
    /// Total length of the record, header included.
    pub r_len: u16,
    /// Record number.
    pub r_nbr: u8,
    /// Interface level of the monitor.
    pub dri_level: DriLevel,
    /// Plug identifier.
    pub plug_id: u16,
    /// Time of the record in seconds since 1970-01-01 UTC.
    pub r_time: u32,
    /// Main type of the record.
    pub r_maintype: DriMainType,
    /// Descriptors of the subrecords, in table order.
    pub subrecords: Vec<SubrecordDescriptor>,
}

/// The descriptor in a slot of the table of a header.
pub open spec fn spec_descriptor(data: Seq<u8>, slot: int) -> SubrecordDescriptor {
    SubrecordDescriptor {
        offset: spec_le_u16(data[18 + 3 * slot], data[19 + 3 * slot]),
        sr_type: data[20 + 3 * slot],
    }
}

/// Number of descriptors from a slot on, up to the end of the table or the
/// first descriptor of type `0xFF`.
pub open spec fn spec_descriptor_count_from(data: Seq<u8>, slot: int) -> nat
    decreases 8 - slot,
{
    if slot < 0 || slot >= 8 || data[20 + 3 * slot] == EOL_SUBRECORD_LIST {
        0
    } else {
        1 + spec_descriptor_count_from(data, slot + 1)
    }
}

/// The descriptors of a header: those before the first of type `0xFF`, at
/// most eight.
pub open spec fn spec_descriptors(data: Seq<u8>) -> Seq<SubrecordDescriptor> {
    Seq::new(spec_descriptor_count_from(data, 0), |slot: int| spec_descriptor(data, slot))
}

/// Whether the descriptor table runs past the end of the data: its first seven
/// slots hold descriptors and the eighth is not all there.
pub open spec fn spec_table_overrun(data: Seq<u8>) -> bool {
    data.len() < 42 && spec_descriptor_count_from(data, 0) >= 7
}

/// Why a byte sequence is refused as a header, `None` where it is accepted.
/// Fewer than 40 bytes are incomplete; then the interface level has to be one
/// of 2 to 10; then the main type has to be one the protocol defines; then
/// the descriptor table has to end within the data.
pub open spec fn spec_header_error(data: Seq<u8>) -> Option<DriError> {
    if data.len() < 40 {
        Some(DriError::IncompleteFrame)
    } else if !(2 <= data[3] <= 10) {
        Some(DriError::UnsupportedDriLevel(data[3]))
    } else if !DriMainType::is_code(spec_le_u16(data[16], data[17])) {
        Some(DriError::UnknownMainType(spec_le_u16(data[16], data[17])))
    } else if spec_table_overrun(data) {
        Some(DriError::IncompleteFrame)
    } else {
        None
    }
}

/// Where a subrecord lies in a data region of a given length: it starts at
/// its own offset and ends at the offset of the next descriptor, the last one
/// at the end of the region. An index beyond the table is refused by its
/// number (modulo 256), a range that leaves the region or runs backwards as
/// incomplete.
pub open spec fn spec_subrecord_range(
    descriptors: Seq<SubrecordDescriptor>,
    data_len: int,
    index: int,
) -> Result<(int, int), DriError> {
    if index < 0 || index >= descriptors.len() {
        Err(DriError::InvalidSubrecordType((index % 256) as u8))
    } else {
        let start = descriptors[index].offset as int;
        let end = if index + 1 < descriptors.len() {
            descriptors[index + 1].offset as int
        } else {
            data_len
        };
        if start > data_len || end > data_len || start > end {
            Err(DriError::IncompleteFrame)
        } else {
            Ok((start, end))
        }
    }
}

/// The offsets of the descriptors never decrease and stay within a data
/// region of the given length.
pub open spec fn spec_descriptors_in_bounds(
    descriptors: Seq<SubrecordDescriptor>,
    data_len: int,
) -> bool {
    &&& forall|i: int, j: int|
        0 <= i <= j < descriptors.len() ==> (#[trigger] descriptors[i]).offset
            <= (#[trigger] descriptors[j]).offset
    &&& forall|i: int|
        0 <= i < descriptors.len() ==> (#[trigger] descriptors[i]).offset <= data_len
}

/// With offsets that never decrease and stay within the data region, every
/// subrecord of the table has a range.
pub proof fn lemma_in_bounds_ranges(
    descriptors: Seq<SubrecordDescriptor>,
    data_len: int,
    index: int,
)
    requires
        spec_descriptors_in_bounds(descriptors, data_len),
        0 <= index < descriptors.len(),
    ensures
        spec_subrecord_range(descriptors, data_len, index) is Ok,
{
    if index + 1 < descriptors.len() {
        assert(descriptors[index].offset <= descriptors[index + 1].offset);
    }
}

/// The bytes of a subrecord: the slice that its range cuts out of the data
/// region, and nothing where it has no range.
pub open spec fn spec_subrecord_slice(
    descriptors: Seq<SubrecordDescriptor>,
    data: Seq<u8>,
    index: int,
) -> Seq<u8> {
    match spec_subrecord_range(descriptors, data.len() as int, index) {
        Ok((start, end)) => data.subrange(start, end),
        Err(_) => Seq::empty(),
    }
}

/// The bytes of the first `count` subrecords, one after the other.
pub open spec fn spec_subrecords_joined(
    descriptors: Seq<SubrecordDescriptor>,
    data: Seq<u8>,
    count: nat,
) -> Seq<u8>
    decreases count,
{
    if count == 0 {
        Seq::empty()
    } else {
        spec_subrecords_joined(descriptors, data, (count - 1) as nat) + spec_subrecord_slice(
            descriptors,
            data,
            count - 1,
        )
    }
}

/// With offsets that never decrease and stay within the data region, the
/// subrecords neither overlap nor leave a gap: the first `count` of them,
/// joined, are the data from the first offset up to the offset of the next
/// subrecord, and all of them are the data from the first offset to its end.
pub proof fn lemma_subrecords_join(
    descriptors: Seq<SubrecordDescriptor>,
    data: Seq<u8>,
    count: nat,
)
    requires
        spec_descriptors_in_bounds(descriptors, data.len() as int),
        1 <= count <= descriptors.len(),
    ensures
        spec_subrecords_joined(descriptors, data, count) == data.subrange(
            descriptors[0].offset as int,
            if count < descriptors.len() {
                descriptors[count as int].offset as int
            } else {
                data.len() as int
            },
        ),
    decreases count,
{
    let first = descriptors[0].offset as int;
    let index = (count - 1) as int;
    let start = descriptors[index].offset as int;
    let end = if count < descriptors.len() {
        descriptors[count as int].offset as int
    } else {
        data.len() as int
    };
    assert(descriptors[0].offset <= descriptors[index].offset);
    if count < descriptors.len() {
        assert(descriptors[index].offset <= descriptors[count as int].offset);
    }
    lemma_in_bounds_ranges(descriptors, data.len() as int, index);
    assert(spec_subrecord_slice(descriptors, data, index) == data.subrange(start, end));
    if count == 1 {
        assert(spec_subrecords_joined(descriptors, data, 0) =~= Seq::<u8>::empty());
        assert(Seq::<u8>::empty() + data.subrange(start, end) =~= data.subrange(first, end));
    } else {
        lemma_subrecords_join(descriptors, data, (count - 1) as nat);
        assert(data.subrange(first, start) + data.subrange(start, end) =~= data.subrange(
            first,
            end,
        ));
    }
}

impl DriHeader {
    /// Parses the header at the start of `data`.
    ///
    /// Fails with `IncompleteFrame` on fewer than 40 bytes, with
    /// `UnsupportedDriLevel` on an interface level outside 2 to 10, with
    /// `UnknownMainType` on a main type the protocol does not define, and with
    /// `IncompleteFrame` on a descriptor table that runs past the end of the
    /// data, in this order; every other input gives the header.
    pub fn parse(data: &[u8]) -> (result: Result<Self, DriError>)
        ensures
            match result {
                Ok(header) => {
                    &&& spec_header_error(data@) is None
                    &&& header.r_len == spec_le_u16(data@[0], data@[1])
                    &&& header.r_nbr == data@[2]
                    &&& header.dri_level.spec_code() == data@[3]
                    &&& DriLevel::spec_from_u8(data@[3]) == Some(header.dri_level)
                    &&& header.plug_id == spec_le_u16(data@[4], data@[5])
                    &&& header.r_time == spec_le_u32(data@[6], data@[7], data@[8], data@[9])
                    &&& header.r_maintype.spec_code() == spec_le_u16(data@[16], data@[17])
                    &&& DriMainType::spec_from_u16(spec_le_u16(data@[16], data@[17])) == Some(
                        header.r_maintype,
                    )
                    &&& header.subrecords@ == spec_descriptors(data@)
                },
                Err(e) => spec_header_error(data@) == Some(e),
            },
    {
        if data.len() < HEADER_SIZE {
            return Err(DriError::IncompleteFrame);
        }
        let r_len = (data[0] as u16) + (data[1] as u16) * 256;
        let r_nbr = data[2];
        let dri_level_byte = data[3];
        let plug_id = (data[4] as u16) + (data[5] as u16) * 256;
        let r_time = (data[6] as u32) + (data[7] as u32) * 256 + (data[8] as u32) * 65536 + (
        data[9] as u32) * 16777216;
        let r_maintype_raw = (data[16] as u16) + (data[17] as u16) * 256;

        let dri_level = match DriLevel::from_u8(dri_level_byte) {
            Some(level) => level,
            None => {
                return Err(DriError::UnsupportedDriLevel(dri_level_byte));
            },
        };
        let r_maintype = match DriMainType::from_u16(r_maintype_raw) {
            Some(main_type) => main_type,
            None => {
                return Err(DriError::UnknownMainType(r_maintype_raw));
            },
        };

        let mut subrecords: Vec<SubrecordDescriptor> = Vec::new();
        let mut slot: usize = 0;
        while slot < MAX_SUBRECORDS
            invariant
                slot <= 8,
                data@.len() >= 40,
                slot == 8 ==> data@.len() >= 42,
                2 <= data@[3] <= 10,
                DriMainType::is_code(spec_le_u16(data@[16], data@[17])),
                subrecords@.len() == slot,
                forall|k: int| 0 <= k < slot ==> subrecords@[k] == spec_descriptor(data@, k),
                spec_descriptor_count_from(data@, 0) == slot + spec_descriptor_count_from(
                    data@,
                    slot as int,
                ),
            ensures
                subrecords@.len() == spec_descriptor_count_from(data@, 0),
                forall|k: int|
                    0 <= k < subrecords@.len() ==> subrecords@[k] == spec_descriptor(data@, k),
                !spec_table_overrun(data@),
            decreases 8 - slot,
        {
            let base = 18 + slot * 3;
            if base + 2 >= data.len() {
                return Err(DriError::IncompleteFrame);
            }
            let offset = (data[base] as u16) + (data[base + 1] as u16) * 256;
            let sr_type = data[base + 2];
            if sr_type == EOL_SUBRECORD_LIST {
                break ;
            }
            subrecords.push(SubrecordDescriptor { offset, sr_type });
            slot = slot + 1;
        }
        proof {
            assert(subrecords@ =~= spec_descriptors(data@));
        }
        Ok(DriHeader { r_len, r_nbr, dri_level, plug_id, r_time, r_maintype, subrecords })
    }

    /// Time of the record in seconds since 1970-01-01 UTC.
    pub fn timestamp(&self) -> (seconds: u32)
        ensures
            seconds == self.r_time,
    {
        self.r_time
    }

    /// The data region of a record: everything after the 40 bytes of the
    /// header. Fails with `IncompleteFrame` where the record is shorter than
    /// a header.
    pub fn extract_data<'a>(&self, frame_data: &'a [u8]) -> (result: Result<&'a [u8], DriError>)
        ensures
            match result {
                Ok(region) => frame_data@.len() >= 40 && region@ == frame_data@.skip(40),
                Err(e) => frame_data@.len() < 40 && e == DriError::IncompleteFrame,
            },
    {
        if frame_data.len() < HEADER_SIZE {
            return Err(DriError::IncompleteFrame);
        }
        let region = &frame_data[HEADER_SIZE..frame_data.len()];
        proof {
            assert(region@ =~= frame_data@.skip(40));
        }
        Ok(region)
    }

    /// The data of one subrecord: the slice of the data region that
    /// `spec_subrecord_range` gives for it, or the error it gives.
    pub fn get_subrecord_data<'a>(&self, data: &'a [u8], index: usize) -> (result: Result<
        &'a [u8],
        DriError,
    >)
        ensures
            match result {
                Ok(slice) => spec_subrecord_range(
                    self.subrecords@,
                    data@.len() as int,
                    index as int,
                ) matches Ok((start, end)) && slice@ == data@.subrange(start, end),
                Err(e) => spec_subrecord_range(self.subrecords@, data@.len() as int, index as int)
                    == Err::<(int, int), DriError>(e),
            },
    {
        if index >= self.subrecords.len() {
            return Err(DriError::InvalidSubrecordType((index % 256) as u8));
        }
        let start = self.subrecords[index].offset as usize;
        let end = if index + 1 < self.subrecords.len() {
            self.subrecords[index + 1].offset as usize
        } else {
            data.len()
        };
        if start > data.len() || end > data.len() || start > end {
            return Err(DriError::IncompleteFrame);
        }
        Ok(&data[start..end])
    }
}

/// The header of a request record: the total length and the main type, one
/// descriptor of offset 0 and type 0, the end of the table, and zeros
/// everywhere else.
pub open spec fn spec_request_header(total_len: u16, main_type: u16) -> Seq<u8> {
    Seq::new(
        40,
        |i: int|
            if i == 0 {
                (total_len % 256) as u8
            } else if i == 1 {
                (total_len / 256) as u8
            } else if i == 16 {
                (main_type % 256) as u8
            } else if i == 17 {
                (main_type / 256) as u8
            } else if i == 23 {
                EOL_SUBRECORD_LIST
            } else {
                0u8
            },
    )
}

/// The nine bytes of a request for physiological data: the subrecord type,
/// the interval in seconds, the class mask, and two reserved bytes.
pub open spec fn spec_phdb_payload(subtype: u8, interval: u16, class_mask: u32) -> Seq<u8> {
    seq![
        subtype,
        (interval % 256) as u8,
        (interval / 256) as u8,
        (class_mask % 256) as u8,
        ((class_mask / 256) % 256) as u8,
        ((class_mask / 65536) % 256) as u8,
        (class_mask / 16777216) as u8,
        0u8,
        0u8,
    ]
}

/// A request for physiological data: 49 bytes, a header of main type 0 and
/// the payload.
pub open spec fn spec_phdb_request(subtype: u8, interval: u16, class_mask: u32) -> Seq<u8> {
    spec_request_header(49, 0) + spec_phdb_payload(subtype, interval, class_mask)
}

/// The 32 bytes of a waveform request: the request type, two reserved bytes,
/// the first eight waveform types, closed by `0xFF` where there are fewer than
/// eight, and zeros up to the end.
pub open spec fn spec_waveform_payload(waveform_types: Seq<u8>, request_type: u16) -> Seq<u8> {
    Seq::new(
        32,
        |i: int|
            if i == 0 {
                (request_type % 256) as u8
            } else if i == 1 {
                (request_type / 256) as u8
            } else if 4 <= i < 12 && i - 4 < waveform_types.len() {
                waveform_types[i - 4]
            } else if 4 <= i < 12 && i - 4 == waveform_types.len() {
                EOL_SUBRECORD_LIST
            } else {
                0u8
            },
    )
}

/// A waveform request: 72 bytes, a header of main type 1 and the payload.
pub open spec fn spec_waveform_request(waveform_types: Seq<u8>, request_type: u16) -> Seq<u8> {
    spec_request_header(72, 1) + spec_waveform_payload(waveform_types, request_type)
}

/// The header of a request record.
fn request_header(total_len: u16, main_type: u16) -> (header: Vec<u8>)
    ensures
        header@ == spec_request_header(total_len, main_type),
{
    let mut header: Vec<u8> = Vec::new();
    let mut i: usize = 0;
    while i < HEADER_SIZE
        invariant
            i <= 40,
            header@.len() == i,
            forall|k: int| 0 <= k < i ==> header@[k] == 0u8,
        decreases 40 - i,
    {
        header.push(0u8);
        i = i + 1;
    }
    header.set(0, (total_len % 256) as u8);
    header.set(1, (total_len / 256) as u8);
    header.set(16, (main_type % 256) as u8);
    header.set(17, (main_type / 256) as u8);
    header.set(23, EOL_SUBRECORD_LIST);
    proof {
        assert(header@ =~= spec_request_header(total_len, main_type));
    }
    header
}

/// Subrecord type of a request for displayed values.
pub const PHDB_DISPLAYED: u8 = 1;

/// Subrecord type of a request for 10 s trends.
pub const PHDB_TREND_10S: u8 = 2;

/// Subrecord type of a request for 60 s trends.
pub const PHDB_TREND_60S: u8 = 3;

/// Shortest interval, in seconds, at which displayed values are sent.
pub const MIN_DISPLAYED_INTERVAL: u16 = 5;

/// The interval that is requested: an interval of 0 stops the transmission
/// and is kept, displayed values are sent no faster than every 5 seconds, and
/// the interval of a trend is kept.
pub open spec fn spec_effective_interval(subtype: u8, interval: u16) -> u16 {
    if subtype == PHDB_DISPLAYED && 0 < interval < MIN_DISPLAYED_INTERVAL {
        MIN_DISPLAYED_INTERVAL
    } else {
        interval
    }
}

/// What a waveform request asks for.
#[derive(Debug, Clone, Copy, PartialEq, Eq, Structural)]
pub enum WaveformRequestType {
    /// Start continuous transmission.
    Start,
    /// Stop transmission.
    Stop,
}

impl WaveformRequestType {
    /// The word that stands for the request type on the wire.
    pub open spec fn spec_code(&self) -> u16 {
        match self {
            WaveformRequestType::Start => 0,
            WaveformRequestType::Stop => 1,
        }
    }

    /// The word that stands for the request type on the wire.
    #[verifier::when_used_as_spec(spec_code)]
    pub fn code(&self) -> (r: u16)
        ensures
            r == self.spec_code(),
    {
        match self {
            WaveformRequestType::Start => 0,
            WaveformRequestType::Stop => 1,
        }
    }
}

/// Why a request is not built or not sent.
#[derive(Debug, Clone, Copy, PartialEq, Eq, Structural)]
pub enum RequestError {
    /// None of the names given for a start request stands for a waveform.
    NoWaveforms,
    /// The total sample rate of the waveforms exceeds 600 samples per second.
    SampleRateExceeded,
}

/// The bytes that stand for a sequence of waveform types on the wire.
pub open spec fn spec_waveform_codes(types: Seq<WaveformType>) -> Seq<u8> {
    types.map_values(|t: WaveformType| t.spec_code())
}

/// Why a waveform request is refused, `None` where it is built: the one
/// refusal is that of a set above the sample rate limit.
pub open spec fn spec_waveform_request_error(types: Seq<WaveformType>) -> Option<RequestError> {
    if !spec_valid_waveform_set(types) {
        Some(RequestError::SampleRateExceeded)
    } else {
        None
    }
}

/// Builds a request for physiological data: displayed values (`subtype` 1),
/// 10 s trends (2) or 60 s trends (3) every `interval` seconds, for the
/// classes of `class_mask`. An interval of 0 stops the transmission; an
/// interval of 1 to 4 seconds for displayed values is raised to 5.
pub fn create_phdb_request(subtype: u8, interval: u16, class_mask: u32) -> (request: Vec<u8>)
    ensures
        request@ == spec_phdb_request(
            subtype,
            spec_effective_interval(subtype, interval),
            class_mask,
        ),
        request@.len() == 49,
{
    let interval = if subtype == PHDB_DISPLAYED && 0 < interval && interval
        < MIN_DISPLAYED_INTERVAL {
        MIN_DISPLAYED_INTERVAL
    } else {
        interval
    };
    let mut request = request_header(49, 0);
    request.push(subtype);
    request.push((interval % 256) as u8);
    request.push((interval / 256) as u8);
    request.push((class_mask % 256) as u8);
    request.push(((class_mask / 256) % 256) as u8);
    request.push(((class_mask / 65536) % 256) as u8);
    request.push((class_mask / 16777216) as u8);
    request.push(0u8);
    request.push(0u8);
    proof {
        assert(request@ =~= spec_phdb_request(subtype, interval, class_mask));
    }
    request
}

/// The bytes that stand for waveform types on the wire.
pub fn waveform_codes(types: &[WaveformType]) -> (codes: Vec<u8>)
    ensures
        codes@ == spec_waveform_codes(types@),
{
    let mut codes: Vec<u8> = Vec::new();
    let mut i: usize = 0;
    while i < types.len()
        invariant
            i <= types.len(),
            codes@ == spec_waveform_codes(types@.take(i as int)),
        decreases types.len() - i,
    {
        codes.push(types[i].code());
        proof {
            assert(codes@ =~= spec_waveform_codes(types@.take(i + 1)));
        }
        i = i + 1;
    }
    proof {
        assert(types@.take(i as int) =~= types@);
    }
    codes
}

/// The bytes of a waveform request for the given type bytes and request
/// type, as they are laid out on the wire.
pub(crate) fn waveform_request_bytes(waveform_types: &[u8], request_type: u16) -> (request: Vec<u8>)
    ensures
        request@ == spec_waveform_request(waveform_types@, request_type),
        request@.len() == 72,
{
    let mut request = request_header(72, 1);
    request.push((request_type % 256) as u8);
    request.push((request_type / 256) as u8);
    request.push(0u8);
    request.push(0u8);
    let mut i: usize = 0;
    while i < 28
        invariant
            i <= 28,
            request@.len() == 44 + i,
            request@.subrange(0, 40) == spec_request_header(72, 1),
            request@[40] == (request_type % 256) as u8,
            request@[41] == (request_type / 256) as u8,
            request@[42] == 0u8,
            request@[43] == 0u8,
            forall|k: int|
                44 <= k < 44 + i ==> #[trigger] request@[k] == spec_waveform_payload(
                    waveform_types@,
                    request_type,
                )[k - 40],
        decreases 28 - i,
    {
        let ghost before = request@;
        let byte = if i < 8 && i < waveform_types.len() {
            waveform_types[i]
        } else if i < 8 && i == waveform_types.len() {
            EOL_SUBRECORD_LIST
        } else {
            0u8
        };
        request.push(byte);
        proof {
            assert(request@.subrange(0, 40) =~= before.subrange(0, 40));
        }
        i = i + 1;
    }
    proof {
        assert(request@ =~= request@.subrange(0, 40) + spec_waveform_payload(
            waveform_types@,
            request_type,
        ));
    }
    request
}

/// Builds a request to start or stop the transmission of waveforms.
///
/// Refuses a set whose total sample rate exceeds 600 samples per second with
/// `SampleRateExceeded`, and nothing else. A request holds up to eight
/// waveform types: the list is closed by `0xFF` where there are fewer, an
/// empty set gives `0xFF` in the first slot, and of more than eight the first
/// eight are requested.
pub fn create_waveform_request(waveform_types: &[WaveformType], request: WaveformRequestType) -> (result:
    Result<Vec<u8>, RequestError>)
    ensures
        match result {
            Ok(bytes) => spec_waveform_request_error(waveform_types@) is None && bytes@
                == spec_waveform_request(spec_waveform_codes(waveform_types@), request.spec_code())
                && bytes@.len() == 72,
            Err(e) => spec_waveform_request_error(waveform_types@) == Some(e),
        },
{
    if !waveform_set_within_limit(waveform_types) {
        return Err(RequestError::SampleRateExceeded);
    }
    let codes = waveform_codes(waveform_types);
    Ok(waveform_request_bytes(codes.as_slice(), request.code()))
}

} // verus!
