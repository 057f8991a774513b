//! The monitor's side of the link, for a simulated monitor: reading the
//! requests of a client and encoding the records a monitor would send.
//!
//! The simulated monitor takes the checksum over the bytes as they travel,
//! escape bytes included, where a client takes it over the payload. The two
//! agree exactly on the frames in which nothing is escaped.

use vstd::prelude::*;

pub mod round_trip;

use crate::constants::{BIT5, CTRL_CHAR, FRAME_CHAR, HEADER_SIZE};
use crate::decode::subrecords::spec_le_u16;
use crate::protocol::checksum::{calculate_checksum, spec_checksum};
use crate::protocol::framing::{
    lemma_stuff_push,
    spec_frame,
    spec_stuff,
    spec_stuff_byte,
    stuff_bytes,
};

verus! {

/// A request as the simulated monitor understands it.
#[derive(Debug, Clone)]
pub enum Request {
    /// Send physiological data at the given interval in seconds.
    PhdbRequest { interval: u16 },
    /// Send the given waveform types.
    WaveformRequest { waveforms: Vec<u8> },
    /// Stop sending.
    StopAll,
}

/// Mathematical value of a request.
pub enum RequestModel {
    PhdbRequest { interval: u16 },
    WaveformRequest { waveforms: Seq<u8> },
    StopAll,
}

impl View for Request {
    type V = RequestModel;

    open spec fn view(&self) -> RequestModel {
        match self {
            Request::PhdbRequest { interval } => RequestModel::PhdbRequest { interval: *interval },
            Request::WaveformRequest { waveforms } => RequestModel::WaveformRequest {
                waveforms: waveforms@,
            },
            Request::StopAll => RequestModel::StopAll,
        }
    }
}

/// The bytes of the first frame in `data`, unstuffed, from position `i` on:
/// `in_frame` says whether a delimiter was met, `acc` holds the bytes
/// unstuffed so far. Bytes before the first delimiter are skipped, the frame
/// ends at the first delimiter that follows a byte of it or at the end of the
/// data, and an escape byte followed by another byte stands for that byte
/// with bit 5 set.
pub open spec fn spec_scan_request(data: Seq<u8>, i: int, in_frame: bool, acc: Seq<u8>) -> Seq<u8>
    decreases data.len() - i,
{
    if i < 0 || i >= data.len() {
        acc
    } else if data[i] == FRAME_CHAR {
        if in_frame && acc.len() > 0 {
            acc
        } else {
            spec_scan_request(data, i + 1, true, acc)
        }
    } else if !in_frame {
        spec_scan_request(data, i + 1, false, acc)
    } else if data[i] == CTRL_CHAR && i + 1 < data.len() {
        spec_scan_request(data, i + 2, true, acc.push(data[i + 1] | BIT5))
    } else {
        spec_scan_request(data, i + 1, true, acc.push(data[i]))
    }
}

/// The waveform types of a waveform request from slot `slot` on: the list
/// ends at `0xFF` or after eight slots, and a slot of 0 names no waveform.
pub open spec fn spec_requested_waveforms(record: Seq<u8>, slot: int) -> Seq<u8>
    decreases 8 - slot,
{
    if slot < 0 || slot >= 8 || record[44 + slot] == 0xFF {
        Seq::empty()
    } else if record[44 + slot] == 0 {
        spec_requested_waveforms(record, slot + 1)
    } else {
        seq![record[44 + slot]] + spec_requested_waveforms(record, slot + 1)
    }
}

/// The request that an unstuffed record holds. A record shorter than a
/// header holds none. A request for physiological data needs the interval,
/// and an interval of 0 is a stop. A waveform request needs the eight type
/// slots, and the request type 1 is a stop. Other main types hold no request.
pub open spec fn spec_request_of(record: Seq<u8>) -> Option<RequestModel> {
    if record.len() < 40 {
        None
    } else if spec_le_u16(record[16], record[17]) == 0 {
        if record.len() >= 43 {
            let interval = spec_le_u16(record[41], record[42]);
            if interval == 0 {
                Some(RequestModel::StopAll)
            } else {
                Some(RequestModel::PhdbRequest { interval })
            }
        } else {
            None
        }
    } else if spec_le_u16(record[16], record[17]) == 1 {
        if record.len() >= 52 {
            if spec_le_u16(record[40], record[41]) == 1 {
                Some(RequestModel::StopAll)
            } else {
                Some(
                    RequestModel::WaveformRequest {
                        waveforms: spec_requested_waveforms(record, 0),
                    },
                )
            }
        } else {
            None
        }
    } else {
        None
    }
}

/// Whether a result of `parse_request` has the given value.
pub open spec fn spec_request_is(result: Option<Request>, model: Option<RequestModel>) -> bool {
    match model {
        Some(m) => result matches Some(r) && r@ == m,
        None => result is None,
    }
}

/// Reads the request in the first frame of `data`. The checksum is neither
/// checked nor removed.
pub fn parse_request(data: &[u8]) -> (result: Option<Request>)
    ensures
        spec_request_is(
            result,
            spec_request_of(spec_scan_request(data@, 0, false, Seq::empty())),
        ),
{
    let mut unstuffed: Vec<u8> = Vec::new();
    let mut i: usize = 0;
    let mut in_frame = false;
    while i < data.len()
        invariant
            i <= data.len(),
            spec_scan_request(data@, 0, false, Seq::empty()) == spec_scan_request(
                data@,
                i as int,
                in_frame,
                unstuffed@,
            ),
        ensures
            spec_scan_request(data@, 0, false, Seq::empty()) == unstuffed@,
        decreases data.len() - i,
    {
        if data[i] == FRAME_CHAR {
            if in_frame && unstuffed.len() > 0 {
                break ;
            }
            in_frame = true;
            i += 1;
            continue ;
        }
        if !in_frame {
            i += 1;
            continue ;
        }
        if data[i] == CTRL_CHAR && i + 1 < data.len() {
            unstuffed.push(data[i + 1] | BIT5);
            i += 2;
        } else {
            unstuffed.push(data[i]);
            i += 1;
        }
    }

    if unstuffed.len() < HEADER_SIZE {
        return None;
    }
    let main_type = (unstuffed[16] as u16) + (unstuffed[17] as u16) * 256;
    if main_type == 0 {
        if unstuffed.len() >= HEADER_SIZE + 3 {
            let interval = (unstuffed[HEADER_SIZE + 1] as u16) + (unstuffed[HEADER_SIZE
                + 2] as u16) * 256;
            if interval == 0 {
                Some(Request::StopAll)
            } else {
                Some(Request::PhdbRequest { interval })
            }
        } else {
            None
        }
    } else if main_type == 1 {
        if unstuffed.len() >= HEADER_SIZE + 12 {
            let req_type = (unstuffed[HEADER_SIZE] as u16) + (unstuffed[HEADER_SIZE + 1] as u16)
                * 256;
            if req_type == 1 {
                Some(Request::StopAll)
            } else {
                let mut waveforms: Vec<u8> = Vec::new();
                let mut slot: usize = 0;
                while slot < 8
                    invariant
                        slot <= 8,
                        unstuffed@.len() >= 52,
                        spec_requested_waveforms(unstuffed@, 0) == waveforms@
                            + spec_requested_waveforms(unstuffed@, slot as int),
                    ensures
                        spec_requested_waveforms(unstuffed@, 0) == waveforms@,
                    decreases 8 - slot,
                {
                    let wf_type = unstuffed[HEADER_SIZE + 4 + slot];
                    if wf_type == 0xFF {
                        proof {
                            assert(waveforms@ + Seq::<u8>::empty() =~= waveforms@);
                        }
                        break ;
                    }
                    let ghost before = waveforms@;
                    let ghost rest = spec_requested_waveforms(unstuffed@, slot + 1);
                    if wf_type != 0 {
                        waveforms.push(wf_type);
                        proof {
                            assert(before + (seq![wf_type] + rest) =~= waveforms@ + rest);
                        }
                    }
                    slot += 1;
                }
                proof {
                    assert(waveforms@ + Seq::<u8>::empty() =~= waveforms@);
                }
                Some(Request::WaveformRequest { waveforms })
            }
        } else {
            None
        }
    } else {
        None
    }
}

/// A byte sequence with an unsigned 16-bit value written at an offset, low
/// byte first.
pub open spec fn spec_put_u16(data: Seq<u8>, offset: int, value: u16) -> Seq<u8> {
    data.update(offset, (value % 256) as u8).update(offset + 1, (value / 256) as u8)
}

/// A byte sequence with a signed 16-bit value written at an offset, low byte
/// first, in two's complement.
pub open spec fn spec_put_i16(data: Seq<u8>, offset: int, value: i16) -> Seq<u8> {
    spec_put_u16(
        data,
        offset,
        if value >= 0 {
            value as u16
        } else {
            (value + 65536) as u16
        },
    )
}

/// A byte sequence with an unsigned 32-bit value written at an offset, lowest
/// byte first.
pub open spec fn spec_put_u32(data: Seq<u8>, offset: int, value: u32) -> Seq<u8> {
    data.update(offset, (value % 256) as u8).update(offset + 1, ((value / 256) % 256) as u8).update(
        offset + 2,
        ((value / 65536) % 256) as u8,
    ).update(offset + 3, (value / 16777216) as u8)
}

/// A byte sequence with a group header written at an offset: the status word
/// and a label of 0.
pub open spec fn spec_put_group_header(data: Seq<u8>, offset: int, status: u32) -> Seq<u8> {
    spec_put_u16(spec_put_u32(data, offset, status), offset + 4, 0)
}

/// Writes an unsigned 16-bit value at an offset, low byte first.
pub fn write_u16(data: &mut Vec<u8>, offset: usize, value: u16)
    requires
        offset + 2 <= old(data)@.len(),
    ensures
        final(data)@ == spec_put_u16(old(data)@, offset as int, value),
        final(data)@.len() == old(data)@.len(),
{
    let len = data.len();
    assert(offset + 2 <= len);
    data.set(offset, (value % 256) as u8);
    data.set(offset + 1, (value / 256) as u8);
}

/// Writes an unsigned 32-bit value at an offset, lowest byte first.
pub fn write_u32(data: &mut Vec<u8>, offset: usize, value: u32)
    requires
        offset + 4 <= old(data)@.len(),
    ensures
        final(data)@ == spec_put_u32(old(data)@, offset as int, value),
        final(data)@.len() == old(data)@.len(),
{
    let len = data.len();
    assert(offset + 4 <= len);
    data.set(offset, (value % 256) as u8);
    data.set(offset + 1, ((value / 256) % 256) as u8);
    data.set(offset + 2, ((value / 65536) % 256) as u8);
    data.set(offset + 3, (value / 16777216) as u8);
}

/// Writes the header of a parameter group at an offset: the status word and
/// a label of 0.
pub fn write_group_header(data: &mut Vec<u8>, offset: usize, status: u32)
    requires
        offset + 6 <= old(data)@.len(),
    ensures
        final(data)@ == spec_put_group_header(old(data)@, offset as int, status),
        final(data)@.len() == old(data)@.len(),
{
    let len = data.len();
    assert(offset + 6 <= len);
    write_u32(data, offset, status);
    write_u16(data, offset + 4, 0);
}

/// Writes a measurement field at an offset: the product of a value and its
/// multiplier, which has to fit the field.
pub fn write_i16(data: &mut Vec<u8>, offset: usize, value: (i16, i16))
    requires
        offset + 2 <= old(data)@.len(),
        -32768 <= value.0 * value.1 <= 32767,
    ensures
        final(data)@ == spec_put_i16(old(data)@, offset as int, (value.0 * value.1) as i16),
        final(data)@.len() == old(data)@.len(),
{
    let scaled: i16 = value.0 * value.1;
    let unsigned: u16 = if scaled >= 0 {
        scaled as u16
    } else {
        (scaled as i32 + 65536) as u16
    };
    write_u16(data, offset, unsigned);
}

/// The wire form of a record as the simulated monitor sends it: every byte of
/// the record is stuffed, the checksum is the sum modulo 256 of the bytes as
/// they travel, and the checksum is stuffed as well.
pub open spec fn spec_simulated_frame(record: Seq<u8>) -> Seq<u8> {
    seq![FRAME_CHAR] + spec_stuff(record) + spec_stuff_byte(spec_checksum(spec_stuff(record)))
        + seq![FRAME_CHAR]
}

/// Wraps a record for transmission as the simulated monitor does, with the
/// checksum taken over the stuffed bytes.
pub fn simulated_frame(record: &[u8]) -> (frame: Vec<u8>)
    ensures
        frame@ == spec_simulated_frame(record@),
{
    let stuffed = stuff_bytes(record);
    let checksum = calculate_checksum(stuffed.as_slice());
    let mut frame: Vec<u8> = Vec::new();
    frame.push(FRAME_CHAR);
    frame.extend_from_slice(stuffed.as_slice());
    let ghost body = frame@;
    if checksum == FRAME_CHAR || checksum == CTRL_CHAR {
        frame.push(CTRL_CHAR);
        frame.push(checksum & !BIT5);
        proof {
            assert(frame@ =~= body + seq![CTRL_CHAR, checksum & !BIT5]);
        }
    } else {
        frame.push(checksum);
        proof {
            assert(frame@ =~= body + seq![checksum]);
        }
    }
    frame.push(FRAME_CHAR);
    proof {
        assert(body =~= seq![FRAME_CHAR] + stuffed@);
    }
    frame
}

/// Whether no byte of a sequence is the delimiter or the escape byte.
pub open spec fn spec_plain(data: Seq<u8>) -> bool {
    forall|i: int| 0 <= i < data.len() ==> #[trigger] data[i] != FRAME_CHAR && data[i] != CTRL_CHAR
}

/// Stuffing leaves a sequence without delimiter and escape byte as it is.
pub proof fn lemma_stuff_plain(data: Seq<u8>)
    requires
        spec_plain(data),
    ensures
        spec_stuff(data) == data,
    decreases data.len(),
{
    if data.len() > 0 {
        assert(data[0] != FRAME_CHAR && data[0] != CTRL_CHAR);
        assert forall|i: int| 0 <= i < data.drop_first().len() implies #[trigger] data.drop_first()[i]
            != FRAME_CHAR && data.drop_first()[i] != CTRL_CHAR by {
            assert(data.drop_first()[i] == data[i + 1]);
        }
        lemma_stuff_plain(data.drop_first());
        assert(seq![data.first()] + data.drop_first() =~= data);
    } else {
        assert(spec_stuff(data) =~= data);
    }
}

/// For a record without delimiter and escape byte the simulated monitor and
/// a client build the same frame: nothing is escaped before the checksum, so
/// the two checksums are sums of the same bytes.
pub proof fn lemma_simulated_frame_of_plain_record(record: Seq<u8>)
    requires
        spec_plain(record),
    ensures
        spec_simulated_frame(record) == spec_frame(record),
{
    lemma_stuff_plain(record);
    lemma_stuff_push(record, spec_checksum(record));
}

/// A byte sequence with measurement fields written one after the other from
/// an offset on.
pub open spec fn spec_put_fields(data: Seq<u8>, offset: int, fields: Seq<i16>) -> Seq<u8>
    decreases fields.len(),
{
    if fields.len() == 0 {
        data
    } else {
        spec_put_i16(
            spec_put_fields(data, offset, fields.drop_last()),
            offset + 2 * (fields.len() - 1),
            fields.last(),
        )
    }
}

/// A byte sequence with a parameter group written at an offset: its header
/// and, right after it, its measurement fields.
pub open spec fn spec_put_group(data: Seq<u8>, offset: int, status: u32, fields: Seq<i16>) -> Seq<
    u8,
> {
    spec_put_fields(spec_put_group_header(data, offset, status), offset + 6, fields)
}

/// Writes a parameter group at an offset: its header and, right after it, its
/// measurement fields.
pub fn write_group(data: &mut Vec<u8>, offset: usize, status: u32, fields: &[i16])
    requires
        offset + 6 + 2 * fields@.len() <= old(data)@.len(),
    ensures
        final(data)@ == spec_put_group(old(data)@, offset as int, status, fields@),
        final(data)@.len() == old(data)@.len(),
{
    let len = data.len();
    write_group_header(data, offset, status);
    let ghost start = data@;
    let mut i: usize = 0;
    while i < fields.len()
        invariant
            i <= fields@.len(),
            data@.len() == len,
            offset + 6 + 2 * fields@.len() <= len,
            data@ == spec_put_fields(start, offset + 6, fields@.take(i as int)),
        decreases fields@.len() - i,
    {
        let ghost before = data@;
        let field = fields[i];
        write_i16(data, offset + 6 + 2 * i, (field, 1));
        proof {
            let next = fields@.take(i + 1);
            assert(next.drop_last() =~= fields@.take(i as int));
            assert(next.last() == field);
            assert(next.len() == i + 1);
            assert((field * 1) as i16 == field);
            assert(data@ == spec_put_i16(before, offset + 6 + 2 * i, field));
            assert(spec_put_fields(start, offset + 6, next) == spec_put_i16(
                spec_put_fields(start, offset + 6, next.drop_last()),
                offset + 6 + 2 * (next.len() - 1),
                next.last(),
            ));
        }
        i += 1;
    }
    proof {
        assert(fields@.take(i as int) =~= fields@);
    }
}

/// The raw fields of the physiological record that the simulated monitor
/// sends, each in the steps in which it is stored.
#[derive(Debug, Clone, Copy, PartialEq, Eq, Structural)]
pub struct SimulatedVitals {
    /// Heart rate in beats per minute.
    pub hr: i16,
    /// Respiration rate in breaths per minute.
    pub rr: i16,
    /// Systolic pressure in hundredths of a mmHg.
    pub nibp_sys: i16,
    /// Diastolic pressure in hundredths of a mmHg.
    pub nibp_dia: i16,
    /// Mean pressure in hundredths of a mmHg.
    pub nibp_mean: i16,
    /// Temperature in hundredths of a degree Celsius.
    pub temp: i16,
    /// Oxygen saturation in hundredths of a percent.
    pub spo2: i16,
    /// End-tidal CO2 in hundredths of a percent.
    pub etco2: i16,
    /// Peak airway pressure in hundredths of a cmH2O.
    pub ppeak: i16,
    /// Positive end-expiratory pressure in hundredths of a cmH2O.
    pub peep: i16,
    /// Tidal volume in tenths of a millilitre.
    pub tv: i16,
    /// Expired minute volume in hundredths of a litre per minute.
    pub mv: i16,
}

/// Length of the physiological record of the simulated monitor: a header and
/// one complete subrecord.
pub const SIMULATED_PHDB_SIZE: usize = 1128;

/// Number of samples of each waveform in one waveform record.
pub const SAMPLES_PER_FRAME: usize = 75;

/// Length of one waveform subrecord: its header and its samples.
pub const SIMULATED_WAVEFORM_SIZE: usize = 156;

/// Largest number of waveforms in one record: as many descriptors as fit the
/// header together with the end of the table.
pub const MAX_SIMULATED_WAVEFORMS: usize = 6;

/// The header of a record of the simulated monitor: the length, the record
/// number, interface level 8, the time and the main type.
pub open spec fn spec_put_record_header(
    data: Seq<u8>,
    length: u16,
    frame_nbr: u8,
    timestamp: u32,
    main_type: u16,
) -> Seq<u8> {
    spec_put_u16(
        spec_put_u32(spec_put_u16(data, 0, length).update(2, frame_nbr).update(3, 8u8), 6, timestamp),
        16,
        main_type,
    )
}

/// Writes the header of a record of the simulated monitor.
fn write_record_header(data: &mut Vec<u8>, length: u16, frame_nbr: u8, timestamp: u32, main_type: u16)
    requires
        old(data)@.len() >= 40,
    ensures
        final(data)@ == spec_put_record_header(old(data)@, length, frame_nbr, timestamp, main_type),
        final(data)@.len() == old(data)@.len(),
{
    let len = data.len();
    write_u16(data, 0, length);
    data.set(2, frame_nbr);
    data.set(3, 8);
    write_u32(data, 6, timestamp);
    write_u16(data, 16, main_type);
}

/// A sequence of zero bytes.
pub open spec fn spec_zeros(len: nat) -> Seq<u8> {
    Seq::new(len, |i: int| 0u8)
}

/// A zeroed buffer.
fn zeros(len: usize) -> (data: Vec<u8>)
    ensures
        data@ == spec_zeros(len as nat),
{
    let mut data: Vec<u8> = Vec::new();
    let mut i: usize = 0;
    while i < len
        invariant
            i <= len,
            data@ == spec_zeros(i as nat),
        decreases len - i,
    {
        data.push(0u8);
        proof {
            assert(data@ =~= spec_zeros((i + 1) as nat));
        }
        i += 1;
    }
    data
}

/// The physiological record of the simulated monitor: zeros but for the
/// header with one subrecord of displayed values, the time stamp of the
/// subrecord, the groups of the Basic class that the simulated monitor
/// measures, and the classifier of the Basic class at the end.
pub open spec fn spec_phdb_record(frame_nbr: u8, timestamp: u32, v: SimulatedVitals) -> Seq<u8> {
    let s = spec_put_record_header(spec_zeros(1128), 1128, frame_nbr, timestamp, 0);
    let s = spec_put_u16(s, 18, 0).update(20, 1u8);
    let s = spec_put_u16(s, 21, 0).update(23, 0xFFu8);
    let s = spec_put_u32(s, 40, timestamp);
    let s = spec_put_group(s, 44, 3, seq![v.hr, 0i16, 0i16, 0i16, v.rr]);
    let s = spec_put_group(s, 116, 3, seq![v.nibp_sys, v.nibp_dia, v.nibp_mean, v.hr]);
    let s = spec_put_group(s, 130, 3, seq![v.temp]);
    let s = spec_put_group(s, 162, 3, seq![v.spo2, v.hr, 150i16]);
    let s = spec_put_group(s, 176, 3, seq![v.etco2, 400i16, v.rr, 7600i16]);
    let s = spec_put_group(s, 190, 3, seq![2100i16, 2100i16]);
    let s = spec_put_group(s, 200, 1, Seq::empty());
    let s = spec_put_group(s, 210, 1, Seq::empty());
    let s = spec_put_group(
        s,
        222,
        3,
        seq![v.rr, v.ppeak, v.peep, 0i16, v.tv, v.tv, 5000i16, v.mv],
    );
    spec_put_u16(s, 1126, 1)
}

/// Encodes the physiological record of the simulated monitor.
pub fn create_phdb_frame(frame_nbr: u8, timestamp: u32, vitals: &SimulatedVitals) -> (record: Vec<
    u8,
>)
    ensures
        record@ == spec_phdb_record(frame_nbr, timestamp, *vitals),
        record@.len() == 1128,
{
    let v = *vitals;
    let mut data = zeros(SIMULATED_PHDB_SIZE);
    write_record_header(&mut data, 1128, frame_nbr, timestamp, 0);
    write_u16(&mut data, 18, 0);
    data.set(20, 1);
    write_u16(&mut data, 21, 0);
    data.set(23, 0xFF);
    write_u32(&mut data, 40, timestamp);
    let ecg = vec![v.hr, 0, 0, 0, v.rr];
    write_group(&mut data, 44, 3, ecg.as_slice());
    let nibp = vec![v.nibp_sys, v.nibp_dia, v.nibp_mean, v.hr];
    write_group(&mut data, 116, 3, nibp.as_slice());
    let temp = vec![v.temp];
    write_group(&mut data, 130, 3, temp.as_slice());
    let spo2 = vec![v.spo2, v.hr, 150];
    write_group(&mut data, 162, 3, spo2.as_slice());
    let co2 = vec![v.etco2, 400, v.rr, 7600];
    write_group(&mut data, 176, 3, co2.as_slice());
    let o2 = vec![2100, 2100];
    write_group(&mut data, 190, 3, o2.as_slice());
    let none: Vec<i16> = Vec::new();
    write_group(&mut data, 200, 1, none.as_slice());
    write_group(&mut data, 210, 1, none.as_slice());
    let flow = vec![v.rr, v.ppeak, v.peep, 0, v.tv, v.tv, 5000, v.mv];
    write_group(&mut data, 222, 3, flow.as_slice());
    write_u16(&mut data, 1126, 1);
    proof {
        assert(ecg@ =~= seq![v.hr, 0i16, 0i16, 0i16, v.rr]);
        assert(nibp@ =~= seq![v.nibp_sys, v.nibp_dia, v.nibp_mean, v.hr]);
        assert(temp@ =~= seq![v.temp]);
        assert(spo2@ =~= seq![v.spo2, v.hr, 150i16]);
        assert(co2@ =~= seq![v.etco2, 400i16, v.rr, 7600i16]);
        assert(o2@ =~= seq![2100i16, 2100i16]);
        assert(none@ =~= Seq::<i16>::empty());
        assert(flow@ =~= seq![v.rr, v.ppeak, v.peep, 0i16, v.tv, v.tv, 5000i16, v.mv]);
    }
    data
}

/// Number of waveforms of a request that one record carries.
pub open spec fn spec_waveform_count(requested: nat) -> nat {
    if requested <= 6 {
        requested
    } else {
        6
    }
}

/// A waveform record with its first `count` waveforms written: the
/// descriptor of each in the header, and at offset `156 * i` of the data
/// region its subrecord of 75 samples with a status of 0.
pub open spec fn spec_put_waveforms(data: Seq<u8>, types: Seq<u8>, samples: Seq<i16>, count: nat)
    -> Seq<u8>
    decreases count,
{
    if count == 0 {
        data
    } else {
        let i = count - 1;
        let s = spec_put_waveforms(data, types, samples, i as nat);
        let s = spec_put_u16(s, 18 + 3 * i, (156 * i) as u16).update(20 + 3 * i, types[i]);
        let s = spec_put_u16(s, 40 + 156 * i, 75);
        spec_put_fields(s, 46 + 156 * i, samples.subrange(75 * i, 75 * i + 75))
    }
}

/// The waveform record of the simulated monitor for the first six of the
/// requested waveform types: zeros but for the header, the descriptors with
/// the end of the table after them, and the subrecords.
pub open spec fn spec_waveform_record(
    frame_nbr: u8,
    timestamp: u32,
    types: Seq<u8>,
    samples: Seq<i16>,
) -> Seq<u8> {
    let count = spec_waveform_count(types.len());
    let total = 40 + 156 * count;
    let s = spec_put_record_header(spec_zeros(total as nat), total as u16, frame_nbr, timestamp, 1);
    spec_put_waveforms(s, types, samples, count).update(20 + 3 * (count as int), 0xFFu8)
}

/// Encodes a waveform record of the simulated monitor. `samples` holds the
/// 75 samples of each waveform, one waveform after the other. Of more than
/// six waveform types the first six are sent.
pub fn create_waveform_frame(frame_nbr: u8, timestamp: u32, waveforms: &[u8], samples: &[i16]) -> (record:
    Vec<u8>)
    requires
        samples@.len() == 75 * spec_waveform_count(waveforms@.len()),
    ensures
        record@ == spec_waveform_record(frame_nbr, timestamp, waveforms@, samples@),
        record@.len() == 40 + 156 * spec_waveform_count(waveforms@.len()),
{
    let count = if waveforms.len() <= MAX_SIMULATED_WAVEFORMS {
        waveforms.len()
    } else {
        MAX_SIMULATED_WAVEFORMS
    };
    let total = HEADER_SIZE + SIMULATED_WAVEFORM_SIZE * count;
    let mut data = zeros(total);
    write_record_header(&mut data, total as u16, frame_nbr, timestamp, 1);
    let ghost start = data@;
    let mut i: usize = 0;
    while i < count
        invariant
            i <= count,
            count <= 6,
            count <= waveforms@.len(),
            samples@.len() == 75 * count,
            total == 40 + 156 * count,
            data@.len() == total,
            data@ == spec_put_waveforms(start, waveforms@, samples@, i as nat),
        decreases count - i,
    {
        write_u16(&mut data, 18 + 3 * i, (SIMULATED_WAVEFORM_SIZE * i) as u16);
        data.set(20 + 3 * i, waveforms[i]);
        write_u16(&mut data, 40 + 156 * i, 75);
        let ghost before = data@;
        let mut k: usize = 0;
        while k < SAMPLES_PER_FRAME
            invariant
                k <= 75,
                i < count,
                count <= 6,
                samples@.len() == 75 * count,
                total == 40 + 156 * count,
                data@.len() == total,
                data@ == spec_put_fields(
                    before,
                    46 + 156 * i,
                    samples@.subrange(75 * i, 75 * i + 75).take(k as int),
                ),
            decreases 75 - k,
        {
            let ghost chunk = samples@.subrange(75 * i, 75 * i + 75);
            let ghost written = data@;
            let sample = samples[75 * i + k];
            write_i16(&mut data, 46 + 156 * i + 2 * k, (sample, 1));
            proof {
                let next = chunk.take(k + 1);
                assert(next.drop_last() =~= chunk.take(k as int));
                assert(next.last() == sample);
                assert(next.len() == k + 1);
                assert((sample * 1) as i16 == sample);
                assert(data@ == spec_put_i16(written, 46 + 156 * i + 2 * k, sample));
                assert(spec_put_fields(before, 46 + 156 * i, next) == spec_put_i16(
                    spec_put_fields(before, 46 + 156 * i, next.drop_last()),
                    46 + 156 * i + 2 * (next.len() - 1),
                    next.last(),
                ));
            }
            k += 1;
        }
        proof {
            let chunk = samples@.subrange(75 * i, 75 * i + 75);
            assert(chunk.take(75) =~= chunk);
        }
        i += 1;
    }
    data.set(20 + 3 * count, 0xFF);
    data
}

} // verus!
