//! What the decoder makes of the records of the simulated monitor: the
//! values encoded come back.

use vstd::prelude::*;
use crate::constants::dri_types::{PhdbClass, PhdbSubrecordType};
use crate::constants::scaling::{
    SCALE_AWP_100,
    SCALE_COMPLIANCE_100,
    SCALE_IR_AMP_10,
    SCALE_MINUTE_VOLUME_100,
    SCALE_PERCENT_100,
    SCALE_PRESSURE_100,
    SCALE_RATE_1,
    SCALE_ST_100,
    SCALE_TEMP_100,
    SCALE_VOLUME_10,
};
use crate::decode::measurement::Measurement;
use crate::decode::physiological::{spec_label_at, spec_status_at, PhysiologicalData};
use crate::decode::status_bits::{
    Co2Status,
    EcgStatus,
    FlowVolStatus,
    GasStatus,
    GenericStatus,
    NibpStatus,
    Spo2Status,
};
use crate::decode::subrecords::spec_le_u16;
use crate::decode::{ClassifierLayout, DriRecordModel};
use crate::DriError;
use crate::device::{spec_decode_payload, spec_outcome_of, spec_record_stream, PullModel};
use crate::protocol::framing::{
    lemma_frame_round_trip,
    spec_frame,
    spec_idle,
    spec_run,
    FrameEventModel,
};
use crate::constants::waveforms::WaveformType;
use crate::decode::subrecords::{spec_le_i16, spec_le_u32};
use crate::decode::waveforms::{
    spec_decode_waveform,
    spec_decode_waveforms,
    spec_samples,
    spec_waveform_at,
    spec_waveforms_upto,
    SkipReason,
    WaveformModel,
    WaveformStatus,
};
use crate::protocol::header::{
    spec_descriptor_count_from,
    spec_descriptors,
    spec_header_error,
    spec_subrecord_range,
    SubrecordDescriptor,
};
use crate::simulator::{
    spec_put_record_header,
    spec_put_waveforms,
    spec_waveform_count,
    spec_waveform_record,
    spec_phdb_record,
    spec_put_fields,
    spec_put_group,
    spec_put_group_header,
    spec_put_i16,
    spec_put_u16,
    spec_put_u32,
    spec_zeros,
    SimulatedVitals,
};

verus! {

/// Writing a 16-bit value changes the two bytes at its offset and nothing
/// else, and the value is read back from them.
pub proof fn lemma_put_u16(data: Seq<u8>, offset: int, value: u16)
    requires
        0 <= offset,
        offset + 2 <= data.len(),
    ensures
        spec_put_u16(data, offset, value).len() == data.len(),
        forall|j: int|
            0 <= j < data.len() && !(offset <= j < offset + 2) ==> #[trigger] spec_put_u16(
                data,
                offset,
                value,
            )[j] == data[j],
        spec_le_u16(
            spec_put_u16(data, offset, value)[offset],
            spec_put_u16(data, offset, value)[offset + 1],
        ) == value,
{
}

/// Writing a signed 16-bit value changes the two bytes at its offset and
/// nothing else, and the value is read back from them.
pub proof fn lemma_put_i16(data: Seq<u8>, offset: int, value: i16)
    requires
        0 <= offset,
        offset + 2 <= data.len(),
    ensures
        spec_put_i16(data, offset, value).len() == data.len(),
        forall|j: int|
            0 <= j < data.len() && !(offset <= j < offset + 2) ==> #[trigger] spec_put_i16(
                data,
                offset,
                value,
            )[j] == data[j],
        spec_le_i16(
            spec_put_i16(data, offset, value)[offset],
            spec_put_i16(data, offset, value)[offset + 1],
        ) == value,
{
}

/// Writing a 32-bit value changes the four bytes at its offset and nothing
/// else, and the value is read back from them.
pub proof fn lemma_put_u32(data: Seq<u8>, offset: int, value: u32)
    requires
        0 <= offset,
        offset + 4 <= data.len(),
    ensures
        spec_put_u32(data, offset, value).len() == data.len(),
        forall|j: int|
            0 <= j < data.len() && !(offset <= j < offset + 4) ==> #[trigger] spec_put_u32(
                data,
                offset,
                value,
            )[j] == data[j],
        spec_le_u32(
            spec_put_u32(data, offset, value)[offset],
            spec_put_u32(data, offset, value)[offset + 1],
            spec_put_u32(data, offset, value)[offset + 2],
            spec_put_u32(data, offset, value)[offset + 3],
        ) == value,
{
}

/// Writing measurement fields changes the bytes they take and nothing else,
/// and every field is read back from its two bytes.
pub proof fn lemma_put_fields(data: Seq<u8>, offset: int, fields: Seq<i16>)
    requires
        0 <= offset,
        offset + 2 * fields.len() <= data.len(),
    ensures
        spec_put_fields(data, offset, fields).len() == data.len(),
        forall|j: int|
            0 <= j < data.len() && !(offset <= j < offset + 2 * fields.len())
                ==> #[trigger] spec_put_fields(data, offset, fields)[j] == data[j],
        forall|k: int|
            0 <= k < fields.len() ==> spec_le_i16(
                spec_put_fields(data, offset, fields)[offset + 2 * k],
                spec_put_fields(data, offset, fields)[offset + 2 * k + 1],
            ) == #[trigger] fields[k],
    decreases fields.len(),
{
    if fields.len() > 0 {
        let before = spec_put_fields(data, offset, fields.drop_last());
        let last = fields.len() - 1;
        lemma_put_fields(data, offset, fields.drop_last());
        lemma_put_i16(before, offset + 2 * last, fields.last());
        let after = spec_put_fields(data, offset, fields);
        assert forall|k: int| 0 <= k < fields.len() implies spec_le_i16(
            after[offset + 2 * k],
            after[offset + 2 * k + 1],
        ) == #[trigger] fields[k] by {
            if k < last {
                assert(fields.drop_last()[k] == fields[k]);
                assert(after[offset + 2 * k] == before[offset + 2 * k]);
                assert(after[offset + 2 * k + 1] == before[offset + 2 * k + 1]);
            }
        }
    }
}

/// Writing a parameter group changes the bytes it takes and nothing else;
/// its status word, its label of 0 and every field are read back.
pub proof fn lemma_put_group(data: Seq<u8>, offset: int, status: u32, fields: Seq<i16>)
    requires
        0 <= offset,
        offset + 6 + 2 * fields.len() <= data.len(),
    ensures
        spec_put_group(data, offset, status, fields).len() == data.len(),
        forall|j: int|
            0 <= j < data.len() && !(offset <= j < offset + 6 + 2 * fields.len())
                ==> #[trigger] spec_put_group(data, offset, status, fields)[j] == data[j],
        spec_status_at(
            spec_put_group(data, offset, status, fields),
            offset,
        ) == status,
        spec_label_at(
            spec_put_group(data, offset, status, fields),
            offset,
        ) == 0,
        forall|k: int|
            0 <= k < fields.len() ==> spec_le_i16(
                spec_put_group(data, offset, status, fields)[offset + 6 + 2 * k],
                spec_put_group(data, offset, status, fields)[offset + 6 + 2 * k + 1],
            ) == #[trigger] fields[k],
{
    let with_status = spec_put_u32(data, offset, status);
    let with_header = spec_put_group_header(data, offset, status);
    lemma_put_u32(data, offset, status);
    lemma_put_u16(with_status, offset + 4, 0);
    lemma_put_fields(with_header, offset + 6, fields);
    let after = spec_put_group(data, offset, status, fields);
    assert(after[offset] == with_status[offset]);
    assert(after[offset + 1] == with_status[offset + 1]);
    assert(after[offset + 2] == with_status[offset + 2]);
    assert(after[offset + 3] == with_status[offset + 3]);
    assert(after[offset + 4] == with_header[offset + 4]);
    assert(after[offset + 5] == with_header[offset + 5]);
}

/// Whether a byte sequence holds, at the places where the decoder reads
/// them, the header of a physiological record with one subrecord of displayed
/// values, the classifier of the Basic class, and the vitals in the groups
/// that the simulated monitor measures.
pub open spec fn spec_holds_vitals(r: Seq<u8>, timestamp: u32, v: SimulatedVitals) -> bool {
    &&& r.len() == 1128
    &&& r[3] == 8
    &&& r[16] == 0 && r[17] == 0
    &&& r[18] == 0 && r[19] == 0 && r[20] == 1 && r[23] == 0xFF
    &&& spec_le_u32(r[40], r[41], r[42], r[43]) == timestamp
    &&& r[1126] == 1 && r[1127] == 0
    &&& spec_status_at(r, 44) == 3
    &&& spec_label_at(r, 44) == 0
    &&& spec_le_i16(r[50], r[51]) == v.hr
    &&& spec_le_i16(r[52], r[53]) == 0i16
    &&& spec_le_i16(r[54], r[55]) == 0i16
    &&& spec_le_i16(r[56], r[57]) == 0i16
    &&& spec_le_i16(r[58], r[59]) == v.rr
    &&& spec_status_at(r, 116) == 3
    &&& spec_label_at(r, 116) == 0
    &&& spec_le_i16(r[122], r[123]) == v.nibp_sys
    &&& spec_le_i16(r[124], r[125]) == v.nibp_dia
    &&& spec_le_i16(r[126], r[127]) == v.nibp_mean
    &&& spec_le_i16(r[128], r[129]) == v.hr
    &&& spec_status_at(r, 130) == 3
    &&& spec_label_at(r, 130) == 0
    &&& spec_le_i16(r[136], r[137]) == v.temp
    &&& spec_status_at(r, 162) == 3
    &&& spec_label_at(r, 162) == 0
    &&& spec_le_i16(r[168], r[169]) == v.spo2
    &&& spec_le_i16(r[170], r[171]) == v.hr
    &&& spec_le_i16(r[172], r[173]) == 150i16
    &&& spec_status_at(r, 176) == 3
    &&& spec_label_at(r, 176) == 0
    &&& spec_le_i16(r[182], r[183]) == v.etco2
    &&& spec_le_i16(r[184], r[185]) == 400i16
    &&& spec_le_i16(r[186], r[187]) == v.rr
    &&& spec_le_i16(r[188], r[189]) == 7600i16
    &&& spec_status_at(r, 190) == 3
    &&& spec_label_at(r, 190) == 0
    &&& spec_le_i16(r[196], r[197]) == 2100i16
    &&& spec_le_i16(r[198], r[199]) == 2100i16
    &&& spec_status_at(r, 200) == 1
    &&& spec_label_at(r, 200) == 0
    &&& spec_status_at(r, 210) == 1
    &&& spec_label_at(r, 210) == 0
    &&& spec_status_at(r, 222) == 3
    &&& spec_label_at(r, 222) == 0
    &&& spec_le_i16(r[228], r[229]) == v.rr
    &&& spec_le_i16(r[230], r[231]) == v.ppeak
    &&& spec_le_i16(r[232], r[233]) == v.peep
    &&& spec_le_i16(r[234], r[235]) == 0i16
    &&& spec_le_i16(r[236], r[237]) == v.tv
    &&& spec_le_i16(r[238], r[239]) == v.tv
    &&& spec_le_i16(r[240], r[241]) == 5000i16
    &&& spec_le_i16(r[242], r[243]) == v.mv
}

/// The bytes of the physiological record of the simulated monitor, as the
/// decoder reads them: the header fields, the status words and labels of the
/// groups, and every measurement field.
pub proof fn lemma_phdb_record_bytes(frame_nbr: u8, timestamp: u32, v: SimulatedVitals)
    ensures
        spec_holds_vitals(spec_phdb_record(frame_nbr, timestamp, v), timestamp, v),
{
    let z = spec_zeros(1128);
    let h1 = spec_put_u16(z, 0, 1128);
    let h2 = h1.update(2, frame_nbr).update(3, 8u8);
    let h3 = spec_put_u32(h2, 6, timestamp);
    let h4 = spec_put_u16(h3, 16, 0);
    let a1 = spec_put_u16(h4, 18, 0);
    let a2 = a1.update(20, 1u8);
    let b1 = spec_put_u16(a2, 21, 0);
    let b2 = b1.update(23, 0xFFu8);
    let c = spec_put_u32(b2, 40, timestamp);
    let f1: Seq<i16> = seq![v.hr, 0i16, 0i16, 0i16, v.rr];
    let g1 = spec_put_group(c, 44, 3, f1);
    let f2: Seq<i16> = seq![v.nibp_sys, v.nibp_dia, v.nibp_mean, v.hr];
    let g2 = spec_put_group(g1, 116, 3, f2);
    let f3: Seq<i16> = seq![v.temp];
    let g3 = spec_put_group(g2, 130, 3, f3);
    let f4: Seq<i16> = seq![v.spo2, v.hr, 150i16];
    let g4 = spec_put_group(g3, 162, 3, f4);
    let f5: Seq<i16> = seq![v.etco2, 400i16, v.rr, 7600i16];
    let g5 = spec_put_group(g4, 176, 3, f5);
    let f6: Seq<i16> = seq![2100i16, 2100i16];
    let g6 = spec_put_group(g5, 190, 3, f6);
    let f7: Seq<i16> = Seq::<i16>::empty();
    let g7 = spec_put_group(g6, 200, 1, f7);
    let f8: Seq<i16> = Seq::<i16>::empty();
    let g8 = spec_put_group(g7, 210, 1, f8);
    let f9: Seq<i16> = seq![v.rr, v.ppeak, v.peep, 0i16, v.tv, v.tv, 5000i16, v.mv];
    let g9 = spec_put_group(g8, 222, 3, f9);
    let r = spec_put_u16(g9, 1126, 1);
    assert(r == spec_phdb_record(frame_nbr, timestamp, v));
    lemma_put_u16(z, 0, 1128);
    lemma_put_u32(h2, 6, timestamp);
    lemma_put_u16(h3, 16, 0);
    lemma_put_u16(h4, 18, 0);
    lemma_put_u16(a2, 21, 0);
    lemma_put_u32(b2, 40, timestamp);
    lemma_put_group(c, 44, 3, f1);
    lemma_put_group(g1, 116, 3, f2);
    lemma_put_group(g2, 130, 3, f3);
    lemma_put_group(g3, 162, 3, f4);
    lemma_put_group(g4, 176, 3, f5);
    lemma_put_group(g5, 190, 3, f6);
    lemma_put_group(g6, 200, 1, f7);
    lemma_put_group(g7, 210, 1, f8);
    lemma_put_group(g8, 222, 3, f9);
    lemma_put_u16(g9, 1126, 1);
    assert forall|j: int| 44 <= j < 60 implies r[j] == g1[j] by {
        assert(g2[j] == g1[j]);
        assert(g3[j] == g2[j]);
        assert(g4[j] == g3[j]);
        assert(g5[j] == g4[j]);
        assert(g6[j] == g5[j]);
        assert(g7[j] == g6[j]);
        assert(g8[j] == g7[j]);
        assert(g9[j] == g8[j]);
        assert(r[j] == g9[j]);
    }
    assert(f1[0] == v.hr);
    assert(f1[1] == 0i16);
    assert(f1[2] == 0i16);
    assert(f1[3] == 0i16);
    assert(f1[4] == v.rr);
    assert forall|j: int| 116 <= j < 130 implies r[j] == g2[j] by {
        assert(g3[j] == g2[j]);
        assert(g4[j] == g3[j]);
        assert(g5[j] == g4[j]);
        assert(g6[j] == g5[j]);
        assert(g7[j] == g6[j]);
        assert(g8[j] == g7[j]);
        assert(g9[j] == g8[j]);
        assert(r[j] == g9[j]);
    }
    assert(f2[0] == v.nibp_sys);
    assert(f2[1] == v.nibp_dia);
    assert(f2[2] == v.nibp_mean);
    assert(f2[3] == v.hr);
    assert forall|j: int| 130 <= j < 138 implies r[j] == g3[j] by {
        assert(g4[j] == g3[j]);
        assert(g5[j] == g4[j]);
        assert(g6[j] == g5[j]);
        assert(g7[j] == g6[j]);
        assert(g8[j] == g7[j]);
        assert(g9[j] == g8[j]);
        assert(r[j] == g9[j]);
    }
    assert(f3[0] == v.temp);
    assert forall|j: int| 162 <= j < 174 implies r[j] == g4[j] by {
        assert(g5[j] == g4[j]);
        assert(g6[j] == g5[j]);
        assert(g7[j] == g6[j]);
        assert(g8[j] == g7[j]);
        assert(g9[j] == g8[j]);
        assert(r[j] == g9[j]);
    }
    assert(f4[0] == v.spo2);
    assert(f4[1] == v.hr);
    assert(f4[2] == 150i16);
    assert forall|j: int| 176 <= j < 190 implies r[j] == g5[j] by {
        assert(g6[j] == g5[j]);
        assert(g7[j] == g6[j]);
        assert(g8[j] == g7[j]);
        assert(g9[j] == g8[j]);
        assert(r[j] == g9[j]);
    }
    assert(f5[0] == v.etco2);
    assert(f5[1] == 400i16);
    assert(f5[2] == v.rr);
    assert(f5[3] == 7600i16);
    assert forall|j: int| 190 <= j < 200 implies r[j] == g6[j] by {
        assert(g7[j] == g6[j]);
        assert(g8[j] == g7[j]);
        assert(g9[j] == g8[j]);
        assert(r[j] == g9[j]);
    }
    assert(f6[0] == 2100i16);
    assert(f6[1] == 2100i16);
    assert forall|j: int| 200 <= j < 206 implies r[j] == g7[j] by {
        assert(g8[j] == g7[j]);
        assert(g9[j] == g8[j]);
        assert(r[j] == g9[j]);
    }
    assert forall|j: int| 210 <= j < 216 implies r[j] == g8[j] by {
        assert(g9[j] == g8[j]);
        assert(r[j] == g9[j]);
    }
    assert forall|j: int| 222 <= j < 244 implies r[j] == g9[j] by {
        assert(r[j] == g9[j]);
    }
    assert(f9[0] == v.rr);
    assert(f9[1] == v.ppeak);
    assert(f9[2] == v.peep);
    assert(f9[3] == 0i16);
    assert(f9[4] == v.tv);
    assert(f9[5] == v.tv);
    assert(f9[6] == 5000i16);
    assert(f9[7] == v.mv);
    assert forall|j: int| 0 <= j < 44 implies r[j] == c[j] by {
        assert(g1[j] == c[j]);
        assert(g2[j] == g1[j]);
        assert(g3[j] == g2[j]);
        assert(g4[j] == g3[j]);
        assert(g5[j] == g4[j]);
        assert(g6[j] == g5[j]);
        assert(g7[j] == g6[j]);
        assert(g8[j] == g7[j]);
        assert(g9[j] == g8[j]);
        assert(r[j] == g9[j]);
    }
}

/// Whether a decoded record shows the vitals that the simulated monitor
/// encoded at the given time: every group of the Basic class is present, and
/// each field of a group that the simulated monitor measures is the
/// measurement of the value it wrote.
pub open spec fn spec_shows_vitals(p: PhysiologicalData, timestamp: u32, v: SimulatedVitals) -> bool {
    &&& p.timestamp == timestamp
    &&& p.class == PhdbClass::Basic
    &&& p.subtype == PhdbSubrecordType::Displ
    &&& p.ecg matches Some(g) && g.status == EcgStatus::spec_from_status(3) && g.hr
        == Measurement::spec_decode(v.hr, SCALE_RATE_1) && g.st1 == Measurement::spec_decode(
        0,
        SCALE_ST_100,
    ) && g.st2 == Measurement::spec_decode(0, SCALE_ST_100) && g.st3 == Measurement::spec_decode(
        0,
        SCALE_ST_100,
    ) && g.imp_rr == Measurement::spec_decode(v.rr, SCALE_RATE_1)
    &&& p.invp1 is Some && p.invp2 is Some && p.invp3 is Some && p.invp4 is Some
    &&& p.nibp matches Some(g) && g.status == NibpStatus::spec_from_label(3, 0) && g.sys
        == Measurement::spec_decode(v.nibp_sys, SCALE_PRESSURE_100) && g.dia
        == Measurement::spec_decode(v.nibp_dia, SCALE_PRESSURE_100) && g.mean
        == Measurement::spec_decode(v.nibp_mean, SCALE_PRESSURE_100) && g.hr
        == Measurement::spec_decode(v.hr, SCALE_RATE_1)
    &&& p.temp1 matches Some(g) && g.status == GenericStatus::spec_from_status(3) && g.temp
        == Measurement::spec_decode(v.temp, SCALE_TEMP_100)
    &&& p.temp2 is Some && p.temp3 is Some && p.temp4 is Some
    &&& p.spo2 matches Some(g) && g.status == Spo2Status::spec_from_status(3) && g.spo2
        == Measurement::spec_decode(v.spo2, SCALE_PERCENT_100) && g.pr == Measurement::spec_decode(
        v.hr,
        SCALE_RATE_1,
    ) && g.ir_amp == Measurement::spec_decode(150, SCALE_IR_AMP_10)
    &&& p.co2 matches Some(g) && g.status == Co2Status::spec_from_status(3) && g.et
        == Measurement::spec_decode(v.etco2, SCALE_PERCENT_100) && g.fi
        == Measurement::spec_decode(400, SCALE_PERCENT_100) && g.rr == Measurement::spec_decode(
        v.rr,
        SCALE_RATE_1,
    ) && g.amb_press == Measurement::spec_decode(7600, SCALE_PRESSURE_100)
    &&& p.o2 matches Some(g) && g.status == GasStatus::spec_from_status(3) && g.et
        == Measurement::spec_decode(2100, SCALE_PERCENT_100) && g.fi == Measurement::spec_decode(
        2100,
        SCALE_PERCENT_100,
    )
    &&& p.n2o matches Some(g) && g.status == GasStatus::spec_from_status(1)
    &&& p.aa matches Some(g) && g.status == GasStatus::spec_from_status(1)
    &&& p.flow_vol matches Some(g) && g.status == FlowVolStatus::spec_from_status(3) && g.rr
        == Measurement::spec_decode(v.rr, SCALE_RATE_1) && g.ppeak == Measurement::spec_decode(
        v.ppeak,
        SCALE_AWP_100,
    ) && g.peep == Measurement::spec_decode(v.peep, SCALE_AWP_100) && g.pplat
        == Measurement::spec_decode(0, SCALE_AWP_100) && g.tv_insp == Measurement::spec_decode(
        v.tv,
        SCALE_VOLUME_10,
    ) && g.tv_exp == Measurement::spec_decode(v.tv, SCALE_VOLUME_10) && g.compliance
        == Measurement::spec_decode(5000, SCALE_COMPLIANCE_100) && g.mv_exp
        == Measurement::spec_decode(v.mv, SCALE_MINUTE_VOLUME_100)
}

/// A record that holds the vitals decodes to a physiological record that
/// shows them, with either classifier layout.
pub proof fn lemma_decoding_shows_vitals(
    layout: ClassifierLayout,
    r: Seq<u8>,
    timestamp: u32,
    v: SimulatedVitals,
)
    requires
        spec_holds_vitals(r, timestamp, v),
    ensures
        spec_decode_payload(layout, r) matches PullModel::Record(DriRecordModel::Physiological(p))
            && spec_shows_vitals(p, timestamp, v),
{
    reveal_with_fuel(spec_descriptor_count_from, 3);
    let descriptors = spec_descriptors(r);
    assert(spec_descriptor_count_from(r, 0) == 1);
    assert(descriptors.len() == 1);
    assert(descriptors[0] == SubrecordDescriptor {
        offset: 0,
        sr_type: 1,
    });
    assert(spec_header_error(r) is None);
    let data = r.skip(40);
    assert(data.len() == 1088);
    let sub = data.subrange(0, 1088);
    assert(sub =~= data);
    assert(spec_le_u16(sub[1086], sub[1087]) == 1);
    assert(layout.spec_class_bits(1) == 0);
    lemma_groups_show_vitals(r, sub.skip(4), timestamp, v);
}

/// The groups decoded from the data of the Basic class of a record that
/// holds the vitals show them.
proof fn lemma_groups_show_vitals(r: Seq<u8>, d: Seq<u8>, timestamp: u32, v: SimulatedVitals)
    requires
        spec_holds_vitals(r, timestamp, v),
        d.len() == 1084,
        forall|j: int| 0 <= j < 1084 ==> #[trigger] d[j] == r[44 + j],
    ensures
        spec_shows_vitals(
            PhysiologicalData::spec_empty(
                timestamp,
                PhdbClass::Basic,
                PhdbSubrecordType::Displ,
            ).spec_with_basic_class(d),
            timestamp,
            v,
        ),
{
    let p = PhysiologicalData::spec_empty(
        timestamp,
        PhdbClass::Basic,
        PhdbSubrecordType::Displ,
    ).spec_with_basic_class(d);
    assert(spec_status_at(d, 0)
        == spec_status_at(r, 44));
    assert(spec_status_at(d, 72)
        == spec_status_at(r, 116));
    assert(spec_label_at(d, 72)
        == spec_label_at(r, 116));
    assert(spec_status_at(d, 86)
        == spec_status_at(r, 130));
    assert(spec_status_at(d, 118)
        == spec_status_at(r, 162));
    assert(spec_status_at(d, 132)
        == spec_status_at(r, 176));
    assert(spec_status_at(d, 146)
        == spec_status_at(r, 190));
    assert(spec_status_at(d, 156)
        == spec_status_at(r, 200));
    assert(spec_status_at(d, 166)
        == spec_status_at(r, 210));
    assert(spec_status_at(d, 178)
        == spec_status_at(r, 222));
    assert(p.ecg is Some);
    assert(p.nibp is Some);
    assert(p.flow_vol is Some);
}

/// Decoding the physiological record that the simulated monitor encodes
/// gives a physiological record that shows the vitals encoded, whatever the
/// vitals, the time and the record number are, and with either classifier
/// layout.
pub proof fn lemma_phdb_round_trip(
    layout: ClassifierLayout,
    frame_nbr: u8,
    timestamp: u32,
    v: SimulatedVitals,
)
    ensures
        spec_decode_payload(layout, spec_phdb_record(frame_nbr, timestamp, v)) matches PullModel::Record(
            DriRecordModel::Physiological(p),
        ) && spec_shows_vitals(p, timestamp, v),
{
    lemma_phdb_record_bytes(frame_nbr, timestamp, v);
    lemma_decoding_shows_vitals(layout, spec_phdb_record(frame_nbr, timestamp, v), timestamp, v);
}

/// Encoded by the simulated monitor, framed, sent over the link and
/// decoded, a physiological record arrives as one record that shows the
/// vitals encoded.
pub proof fn lemma_phdb_stream_round_trip(
    layout: ClassifierLayout,
    frame_nbr: u8,
    timestamp: u32,
    v: SimulatedVitals,
)
    ensures
        ({
            let stream = spec_record_stream(
                layout,
                spec_idle(),
                spec_frame(spec_phdb_record(frame_nbr, timestamp, v)),
            );
            &&& stream.len() == 1
            &&& stream[0] matches PullModel::Record(DriRecordModel::Physiological(p))
                && spec_shows_vitals(p, timestamp, v)
        }),
{
    let record = spec_phdb_record(frame_nbr, timestamp, v);
    lemma_phdb_record_bytes(frame_nbr, timestamp, v);
    lemma_phdb_round_trip(layout, frame_nbr, timestamp, v);
    lemma_frame_round_trip(
        spec_idle(),
        record,
    );
}

/// Whether each of the waveform types that a record carries is a waveform
/// type with samples: a type of the codebook other than the command.
pub open spec fn spec_sendable(types: Seq<u8>) -> bool {
    forall|i: int|
        0 <= i < spec_waveform_count(types.len()) ==> WaveformType::is_code(#[trigger] types[i])
            && types[i] != 0
}

/// The waveform that the decoder is to make of waveform `i` of a record of
/// the simulated monitor: its 75 samples, none of them lost, and no flag set.
pub open spec fn spec_sent_waveform(timestamp: u32, types: Seq<u8>, samples: Seq<i16>, i: int)
    -> WaveformModel {
    let waveform_type = WaveformType::spec_from_u8(types[i])->0;
    WaveformModel {
        timestamp,
        waveform_type,
        samples: samples.subrange(75 * i, 75 * i + 75),
        sample_rate: waveform_type.spec_sample_rate(),
        unit: waveform_type.spec_unit(),
        declared_count: 75,
        status: WaveformStatus { gap: false, pacer_detected: false, lead_off: false },
    }
}

/// Whether a record holds the descriptor of waveform `i`.
pub open spec fn spec_descriptor_written(r: Seq<u8>, types: Seq<u8>, i: int) -> bool {
    &&& spec_le_u16(r[18 + 3 * i], r[19 + 3 * i]) == 156 * i
    &&& r[20 + 3 * i] == types[i]
}

/// Whether a record holds the subrecord of waveform `i`: a header that
/// declares 75 samples with a status of 0, and the samples.
pub open spec fn spec_subrecord_written(r: Seq<u8>, samples: Seq<i16>, i: int) -> bool {
    &&& spec_le_u16(r[40 + 156 * i], r[41 + 156 * i]) == 75
    &&& r[42 + 156 * i] == 0
    &&& r[43 + 156 * i] == 0
    &&& r[44 + 156 * i] == 0
    &&& r[45 + 156 * i] == 0
    &&& forall|m: int|
        0 <= m < 75 ==> spec_le_i16(r[46 + 156 * i + 2 * m], r[47 + 156 * i + 2 * m])
            == #[trigger] samples[75 * i + m]
}

/// Writing the first `k` waveforms into a record whose data region is zero
/// leaves the header fields before the table, the table from slot `k` on and
/// the data region from waveform `k` on as they were, and writes the
/// descriptor and the subrecord of each of the `k` waveforms.
proof fn lemma_put_waveforms(s: Seq<u8>, types: Seq<u8>, samples: Seq<i16>, k: nat)
    requires
        k <= 6,
        k <= types.len(),
        75 * k <= samples.len(),
        40 + 156 * k <= s.len(),
        forall|j: int| 40 <= j < s.len() ==> #[trigger] s[j] == 0,
    ensures
        spec_put_waveforms(s, types, samples, k).len() == s.len(),
        forall|j: int| 0 <= j < 18 ==> #[trigger] spec_put_waveforms(s, types, samples, k)[j] == s[j],
        forall|j: int|
            18 + 3 * k <= j < 40 ==> #[trigger] spec_put_waveforms(s, types, samples, k)[j] == s[j],
        forall|j: int|
            40 + 156 * k <= j < s.len() ==> #[trigger] spec_put_waveforms(s, types, samples, k)[j]
                == s[j],
        forall|i: int|
            0 <= i < k ==> #[trigger] spec_descriptor_written(
                spec_put_waveforms(s, types, samples, k),
                types,
                i,
            ),
        forall|i: int|
            0 <= i < k ==> #[trigger] spec_subrecord_written(
                spec_put_waveforms(s, types, samples, k),
                samples,
                i,
            ),
    decreases k,
{
    if k > 0 {
        let i = (k - 1) as int;
        lemma_put_waveforms(s, types, samples, i as nat);
        let s0 = spec_put_waveforms(s, types, samples, i as nat);
        let s1 = spec_put_u16(s0, 18 + 3 * i, (156 * i) as u16);
        let s2 = s1.update(20 + 3 * i, types[i]);
        let s3 = spec_put_u16(s2, 40 + 156 * i, 75);
        let chunk = samples.subrange(75 * i, 75 * i + 75);
        let s4 = spec_put_fields(s3, 46 + 156 * i, chunk);
        assert(s4 == spec_put_waveforms(s, types, samples, k));
        lemma_put_u16(s0, 18 + 3 * i, (156 * i) as u16);
        lemma_put_u16(s2, 40 + 156 * i, 75);
        lemma_put_fields(s3, 46 + 156 * i, chunk);
        assert forall|j: int| 0 <= j < s.len() && !(18 + 3 * i <= j < 21 + 3 * i) && !(40 + 156
            * i <= j < 42 + 156 * i) && !(46 + 156 * i <= j < 196 + 156 * i) implies s4[j]
            == s0[j] by {
            assert(s4[j] == s3[j]);
            assert(s3[j] == s2[j]);
            assert(s2[j] == s1[j]);
            assert(s1[j] == s0[j]);
        }
        assert forall|h: int| 0 <= h < k implies #[trigger] spec_descriptor_written(
            s4,
            types,
            h,
        ) by {
            if h < i {
                assert(spec_descriptor_written(s0, types, h));
                assert(s4[18 + 3 * h] == s0[18 + 3 * h]);
                assert(s4[19 + 3 * h] == s0[19 + 3 * h]);
                assert(s4[20 + 3 * h] == s0[20 + 3 * h]);
            } else {
                assert(s4[18 + 3 * i] == s1[18 + 3 * i]) by {
                    assert(s4[18 + 3 * i] == s3[18 + 3 * i]);
                    assert(s3[18 + 3 * i] == s2[18 + 3 * i]);
                }
                assert(s4[19 + 3 * i] == s1[19 + 3 * i]) by {
                    assert(s4[19 + 3 * i] == s3[19 + 3 * i]);
                    assert(s3[19 + 3 * i] == s2[19 + 3 * i]);
                }
                assert(s4[20 + 3 * i] == types[i]) by {
                    assert(s4[20 + 3 * i] == s3[20 + 3 * i]);
                    assert(s3[20 + 3 * i] == s2[20 + 3 * i]);
                }
            }
        }
        assert forall|h: int| 0 <= h < k implies #[trigger] spec_subrecord_written(
            s4,
            samples,
            h,
        ) by {
            if h < i {
                assert(spec_subrecord_written(s0, samples, h));
                assert(s4[40 + 156 * h] == s0[40 + 156 * h]);
                assert(s4[41 + 156 * h] == s0[41 + 156 * h]);
                assert(s4[42 + 156 * h] == s0[42 + 156 * h]);
                assert(s4[43 + 156 * h] == s0[43 + 156 * h]);
                assert(s4[44 + 156 * h] == s0[44 + 156 * h]);
                assert(s4[45 + 156 * h] == s0[45 + 156 * h]);
                assert forall|m: int| 0 <= m < 75 implies spec_le_i16(
                    s4[46 + 156 * h + 2 * m],
                    s4[47 + 156 * h + 2 * m],
                ) == #[trigger] samples[75 * h + m] by {
                    assert(s4[46 + 156 * h + 2 * m] == s0[46 + 156 * h + 2 * m]);
                    assert(s4[47 + 156 * h + 2 * m] == s0[47 + 156 * h + 2 * m]);
                }
            } else {
                assert(s4[40 + 156 * i] == s3[40 + 156 * i]);
                assert(s4[41 + 156 * i] == s3[41 + 156 * i]);
                assert(s4[42 + 156 * i] == s[42 + 156 * i]) by {
                    assert(s4[42 + 156 * i] == s0[42 + 156 * i]);
                    assert(s0[42 + 156 * i] == s[42 + 156 * i]);
                }
                assert(s4[43 + 156 * i] == s[43 + 156 * i]) by {
                    assert(s4[43 + 156 * i] == s0[43 + 156 * i]);
                    assert(s0[43 + 156 * i] == s[43 + 156 * i]);
                }
                assert(s4[44 + 156 * i] == s[44 + 156 * i]) by {
                    assert(s4[44 + 156 * i] == s0[44 + 156 * i]);
                    assert(s0[44 + 156 * i] == s[44 + 156 * i]);
                }
                assert(s4[45 + 156 * i] == s[45 + 156 * i]) by {
                    assert(s4[45 + 156 * i] == s0[45 + 156 * i]);
                    assert(s0[45 + 156 * i] == s[45 + 156 * i]);
                }
                assert forall|m: int| 0 <= m < 75 implies spec_le_i16(
                    s4[46 + 156 * i + 2 * m],
                    s4[47 + 156 * i + 2 * m],
                ) == #[trigger] samples[75 * i + m] by {
                    assert(chunk[m] == samples[75 * i + m]);
                }
            }
        }
    }
}

/// The descriptor table of a record that holds the descriptors of `count`
/// waveform types and the end of the table after them has `count` entries.
proof fn lemma_waveform_descriptor_count(r: Seq<u8>, types: Seq<u8>, count: int, slot: int)
    requires
        0 <= slot <= count <= 6,
        count <= types.len(),
        forall|i: int| 0 <= i < count ==> #[trigger] spec_descriptor_written(r, types, i),
        forall|i: int| 0 <= i < count ==> #[trigger] types[i] != 0xFF,
        r[20 + 3 * count] == 0xFF,
    ensures
        spec_descriptor_count_from(r, slot) == count - slot,
    decreases count - slot,
{
    if slot < count {
        assert(spec_descriptor_written(r, types, slot));
        assert(types[slot] != 0xFF);
        lemma_waveform_descriptor_count(r, types, count, slot + 1);
    }
}

/// A record that holds the descriptors and subrecords of `count` sendable
/// waveforms decodes, up to any subrecord, to the waveforms sent.
proof fn lemma_sent_waveforms_upto(
    r: Seq<u8>,
    timestamp: u32,
    types: Seq<u8>,
    samples: Seq<i16>,
    count: int,
    n: nat,
)
    requires
        n <= count <= 6,
        count <= types.len(),
        samples.len() == 75 * count,
        r.len() == 40 + 156 * count,
        spec_descriptors(r).len() == count,
        forall|i: int|
            0 <= i < count ==> #[trigger] spec_descriptors(r)[i] == (SubrecordDescriptor {
                offset: (156 * i) as u16,
                sr_type: types[i],
            }),
        forall|i: int|
            0 <= i < count ==> WaveformType::is_code(#[trigger] types[i]) && types[i] != 0,
        forall|i: int| 0 <= i < count ==> #[trigger] spec_subrecord_written(r, samples, i),
    ensures
        spec_waveforms_upto(spec_descriptors(r), timestamp, r.skip(40), n) == Seq::new(
            n,
            |i: int| spec_sent_waveform(timestamp, types, samples, i),
        ),
    decreases n,
{
    let descriptors = spec_descriptors(r);
    let data = r.skip(40);
    if n == 0 {
        assert(spec_waveforms_upto(descriptors, timestamp, data, n) =~= Seq::new(
            n,
            |i: int| spec_sent_waveform(timestamp, types, samples, i),
        ));
    } else {
        let i = (n - 1) as int;
        lemma_sent_waveforms_upto(r, timestamp, types, samples, count, i as nat);
        assert(descriptors[i] == (SubrecordDescriptor {
            offset: (156 * i) as u16,
            sr_type: types[i],
        }));
        assert(WaveformType::is_code(types[i]) && types[i] != 0);
        let waveform_type = WaveformType::spec_from_u8(types[i])->0;
        assert(WaveformType::spec_from_u8(types[i]) is Some);
        assert(waveform_type != WaveformType::Cmd);
        if i + 1 < count {
            assert(descriptors[i + 1] == (SubrecordDescriptor {
                offset: (156 * (i + 1)) as u16,
                sr_type: types[i + 1],
            }));
        }
        assert(spec_subrecord_range(descriptors, data.len() as int, i) == Ok::<
            (int, int),
            DriError,
        >((156 * i, 156 * i + 156)));
        let sub = data.subrange(156 * i, 156 * i + 156);
        assert(spec_subrecord_written(r, samples, i));
        assert(sub[0] == r[40 + 156 * i]);
        assert(sub[1] == r[41 + 156 * i]);
        assert(sub[2] == r[42 + 156 * i]);
        assert(sub[3] == r[43 + 156 * i]);
        assert(sub[4] == r[44 + 156 * i]);
        assert(sub[5] == r[45 + 156 * i]);
        assert(0u16 & 0x0001 == 0 && 0u16 & 0x0004 == 0 && 0u16 & 0x0008 == 0) by (bit_vector);
        let chunk = samples.subrange(75 * i, 75 * i + 75);
        assert(spec_samples(sub, 75) =~= chunk) by {
            assert forall|m: int| 0 <= m < 75 implies spec_samples(sub, 75)[m] == chunk[m] by {
                assert(sub[6 + 2 * m] == r[46 + 156 * i + 2 * m]);
                assert(sub[7 + 2 * m] == r[47 + 156 * i + 2 * m]);
                assert(chunk[m] == samples[75 * i + m]);
            }
        }
        let sent = spec_sent_waveform(timestamp, types, samples, i);
        assert(spec_decode_waveform(timestamp, waveform_type, sub) == Some(sent));
        assert(spec_waveform_at(descriptors, timestamp, data, i) == Ok::<
            WaveformModel,
            SkipReason,
        >(sent));
        assert(spec_waveforms_upto(descriptors, timestamp, data, n) =~= Seq::new(
            n,
            |h: int| spec_sent_waveform(timestamp, types, samples, h),
        ));
    }
}

/// Decoding the waveform record that the simulated monitor encodes gives
/// the waveforms encoded, in their order, each with its 75 samples and no
/// flag set: whatever the samples, the time and the record number are. The
/// record has to carry at least one waveform, and only waveform types that
/// carry samples.
pub proof fn lemma_waveform_round_trip(
    layout: ClassifierLayout,
    frame_nbr: u8,
    timestamp: u32,
    types: Seq<u8>,
    samples: Seq<i16>,
)
    requires
        types.len() >= 1,
        samples.len() == 75 * spec_waveform_count(types.len()),
        spec_sendable(types),
    ensures
        spec_decode_payload(layout, spec_waveform_record(frame_nbr, timestamp, types, samples))
            == PullModel::Record(
            DriRecordModel::Waveform(
                Seq::new(
                    spec_waveform_count(types.len()),
                    |i: int| spec_sent_waveform(timestamp, types, samples, i),
                ),
            ),
        ),
{
    let count = spec_waveform_count(types.len());
    let total = 40 + 156 * count;
    let z = spec_zeros(total as nat);
    let h1 = spec_put_u16(z, 0, total as u16);
    let h2 = h1.update(2, frame_nbr).update(3, 8u8);
    let h3 = spec_put_u32(h2, 6, timestamp);
    let s = spec_put_u16(h3, 16, 1);
    assert(s == spec_put_record_header(z, total as u16, frame_nbr, timestamp, 1));
    lemma_put_u16(z, 0, total as u16);
    lemma_put_u32(h2, 6, timestamp);
    lemma_put_u16(h3, 16, 1);
    assert forall|j: int| 40 <= j < s.len() implies #[trigger] s[j] == 0 by {
        assert(s[j] == h3[j]);
        assert(h3[j] == h2[j]);
        assert(h2[j] == h1[j]);
        assert(h1[j] == z[j]);
    }
    lemma_put_waveforms(s, types, samples, count);
    let w = spec_put_waveforms(s, types, samples, count);
    let r = w.update(20 + 3 * (count as int), 0xFFu8);
    assert(r == spec_waveform_record(frame_nbr, timestamp, types, samples));
    assert forall|i: int| 0 <= i < count implies #[trigger] spec_descriptor_written(
        r,
        types,
        i,
    ) by {
        assert(spec_descriptor_written(w, types, i));
    }
    assert forall|i: int| 0 <= i < count implies #[trigger] spec_subrecord_written(
        r,
        samples,
        i,
    ) by {
        assert(spec_subrecord_written(w, samples, i));
        assert forall|m: int| 0 <= m < 75 implies spec_le_i16(
            r[46 + 156 * i + 2 * m],
            r[47 + 156 * i + 2 * m],
        ) == #[trigger] samples[75 * i + m] by {
            assert(r[46 + 156 * i + 2 * m] == w[46 + 156 * i + 2 * m]);
            assert(r[47 + 156 * i + 2 * m] == w[47 + 156 * i + 2 * m]);
        }
    }
    assert forall|i: int| 0 <= i < count implies #[trigger] types[i] != 0xFF by {
        assert(WaveformType::is_code(types[i]));
    }
    lemma_waveform_descriptor_count(r, types, count as int, 0);
    let descriptors = spec_descriptors(r);
    assert(descriptors.len() == count);
    assert forall|i: int| 0 <= i < count implies #[trigger] descriptors[i] == (SubrecordDescriptor {
        offset: (156 * i) as u16,
        sr_type: types[i],
    }) by {
        assert(spec_descriptor_written(r, types, i));
    }
    lemma_sent_waveforms_upto(r, timestamp, types, samples, count as int, count);
    assert(r[3] == 8) by {
        assert(r[3] == w[3]);
        assert(w[3] == s[3]);
        assert(s[3] == h3[3]);
        assert(h3[3] == h2[3]);
    }
    assert(r[16] == s[16] && r[17] == s[17]) by {
        assert(w[16] == s[16]);
        assert(w[17] == s[17]);
    }
    assert(spec_le_u16(r[16], r[17]) == 1);
    assert(spec_le_u32(r[6], r[7], r[8], r[9]) == timestamp) by {
        assert(w[6] == s[6] && w[7] == s[7] && w[8] == s[8] && w[9] == s[9]);
        assert(s[6] == h3[6] && s[7] == h3[7] && s[8] == h3[8] && s[9] == h3[9]);
    }
    assert(spec_header_error(r) is None);
    assert(spec_decode_waveforms(descriptors, timestamp, r.skip(40)).len() == count);
}

/// Encoded by the simulated monitor, framed, sent over the link and
/// decoded, a waveform record arrives as one record that holds the waveforms
/// encoded.
pub proof fn lemma_waveform_stream_round_trip(
    layout: ClassifierLayout,
    frame_nbr: u8,
    timestamp: u32,
    types: Seq<u8>,
    samples: Seq<i16>,
)
    requires
        types.len() >= 1,
        samples.len() == 75 * spec_waveform_count(types.len()),
        spec_sendable(types),
    ensures
        spec_record_stream(
            layout,
            spec_idle(),
            spec_frame(
                spec_waveform_record(frame_nbr, timestamp, types, samples),
            ),
        ) == seq![
            PullModel::Record(
                DriRecordModel::Waveform(
                    Seq::new(
                        spec_waveform_count(types.len()),
                        |i: int| spec_sent_waveform(timestamp, types, samples, i),
                    ),
                ),
            ),
        ],
{
    let record = spec_waveform_record(frame_nbr, timestamp, types, samples);
    lemma_waveform_record_len(frame_nbr, timestamp, types, samples);
    lemma_waveform_round_trip(layout, frame_nbr, timestamp, types, samples);
    lemma_frame_round_trip(
        spec_idle(),
        record,
    );
    let events = spec_run(
        spec_idle(),
        spec_frame(record),
    ).1;
    assert(events.map_values(
        |event: FrameEventModel|
            spec_outcome_of(layout, event),
    ) =~= seq![spec_decode_payload(layout, record)]);
}

/// A waveform record of the simulated monitor has a header and 156 bytes for
/// each waveform it carries.
pub proof fn lemma_waveform_record_len(
    frame_nbr: u8,
    timestamp: u32,
    types: Seq<u8>,
    samples: Seq<i16>,
)
    requires
        samples.len() == 75 * spec_waveform_count(types.len()),
    ensures
        spec_waveform_record(frame_nbr, timestamp, types, samples).len() == 40 + 156
            * spec_waveform_count(types.len()),
{
    let count = spec_waveform_count(types.len());
    let total = 40 + 156 * count;
    let z = spec_zeros(total as nat);
    let h1 = spec_put_u16(z, 0, total as u16);
    let h2 = h1.update(2, frame_nbr).update(3, 8u8);
    let h3 = spec_put_u32(h2, 6, timestamp);
    let s = spec_put_u16(h3, 16, 1);
    lemma_put_u16(z, 0, total as u16);
    lemma_put_u32(h2, 6, timestamp);
    lemma_put_u16(h3, 16, 1);
    assert forall|j: int| 40 <= j < s.len() implies #[trigger] s[j] == 0 by {
        assert(s[j] == h3[j]);
        assert(h3[j] == h2[j]);
        assert(h2[j] == h1[j]);
        assert(h1[j] == z[j]);
    }
    lemma_put_waveforms(s, types, samples, count);
}

} // verus!
