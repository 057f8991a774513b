//! Waveform types, their sample rates and units.

use vstd::prelude::*;

verus! {

/// Waveform types of the protocol.
#[derive(Debug, Clone, Copy, PartialEq, Eq, Hash, Structural)]
pub enum WaveformType {
    /// Waveform command (control).
    Cmd,
    /// ECG channel 1.
    Ecg1,
    /// ECG channel 2.
    Ecg2,
    /// ECG channel 3.
    Ecg3,
    /// Invasive pressure channel 1.
    Invp1,
    /// Invasive pressure channel 2.
    Invp2,
    /// Invasive pressure channel 3.
    Invp3,
    /// Invasive pressure channel 4.
    Invp4,
    /// Plethysmograph (SpO2).
    Pleth,
    /// CO2 waveform.
    Co2,
    /// O2 waveform.
    O2,
    /// N2O waveform.
    N2o,
    /// Anesthesia agent waveform.
    Aa,
    /// Airway pressure.
    Awp,
    /// Airway flow.
    Flow,
    /// Respiratory waveform.
    Resp,
    /// Invasive pressure channel 5.
    Invp5,
    /// Invasive pressure channel 6.
    Invp6,
    /// EEG channel 1.
    Eeg1,
    /// EEG channel 2.
    Eeg2,
    /// EEG channel 3.
    Eeg3,
    /// EEG channel 4.
    Eeg4,
    /// Airway volume.
    Vol,
    /// Tonometry catheter pressure.
    TonoPress,
    /// Spirometry loop status.
    SpiLoopStatus,
    /// Entropy waveform (100 Hz).
    Ent100,
    /// BIS waveform.
    EegBis,
    /// Invasive pressure channel 7.
    Invp7,
    /// Invasive pressure channel 8.
    Invp8,
    /// Secondary plethysmograph.
    Pleth2,
}

impl WaveformType {
    /// The byte that stands for this waveform type on the wire.
    pub open spec fn spec_code(&self) -> u8 {
        match self {
            WaveformType::Cmd => 0,
            WaveformType::Ecg1 => 1,
            WaveformType::Ecg2 => 2,
            WaveformType::Ecg3 => 3,
            WaveformType::Invp1 => 4,
            WaveformType::Invp2 => 5,
            WaveformType::Invp3 => 6,
            WaveformType::Invp4 => 7,
            WaveformType::Pleth => 8,
            WaveformType::Co2 => 9,
            WaveformType::O2 => 10,
            WaveformType::N2o => 11,
            WaveformType::Aa => 12,
            WaveformType::Awp => 13,
            WaveformType::Flow => 14,
            WaveformType::Resp => 15,
            WaveformType::Invp5 => 16,
            WaveformType::Invp6 => 17,
            WaveformType::Eeg1 => 18,
            WaveformType::Eeg2 => 19,
            WaveformType::Eeg3 => 20,
            WaveformType::Eeg4 => 21,
            WaveformType::Vol => 23,
            WaveformType::TonoPress => 24,
            WaveformType::SpiLoopStatus => 29,
            WaveformType::Ent100 => 32,
            WaveformType::EegBis => 35,
            WaveformType::Invp7 => 36,
            WaveformType::Invp8 => 37,
            WaveformType::Pleth2 => 38,
        }
    }

    /// Whether a byte stands for a waveform type.
    pub open spec fn is_code(value: u8) -> bool {
        value <= 21 || value == 23 || value == 24 || value == 29 || value == 32 || (35 <= value && value
            <= 38)
    }

    /// The name under which this waveform type is displayed and requested.
    pub open spec fn spec_name(&self) -> Seq<char> {
        match self {
            WaveformType::Cmd => "CMD"@,
            WaveformType::Ecg1 => "ECG1"@,
            WaveformType::Ecg2 => "ECG2"@,
            WaveformType::Ecg3 => "ECG3"@,
            WaveformType::Invp1 => "INVP1"@,
            WaveformType::Invp2 => "INVP2"@,
            WaveformType::Invp3 => "INVP3"@,
            WaveformType::Invp4 => "INVP4"@,
            WaveformType::Pleth => "PLETH"@,
            WaveformType::Co2 => "CO2"@,
            WaveformType::O2 => "O2"@,
            WaveformType::N2o => "N2O"@,
            WaveformType::Aa => "AA"@,
            WaveformType::Awp => "AWP"@,
            WaveformType::Flow => "FLOW"@,
            WaveformType::Resp => "RESP"@,
            WaveformType::Invp5 => "INVP5"@,
            WaveformType::Invp6 => "INVP6"@,
            WaveformType::Eeg1 => "EEG1"@,
            WaveformType::Eeg2 => "EEG2"@,
            WaveformType::Eeg3 => "EEG3"@,
            WaveformType::Eeg4 => "EEG4"@,
            WaveformType::Vol => "VOL"@,
            WaveformType::TonoPress => "TONO_PRESS"@,
            WaveformType::SpiLoopStatus => "SPI_LOOP_STATUS"@,
            WaveformType::Ent100 => "ENT_100"@,
            WaveformType::EegBis => "EEG_BIS"@,
            WaveformType::Invp7 => "INVP7"@,
            WaveformType::Invp8 => "INVP8"@,
            WaveformType::Pleth2 => "PLETH2"@,
        }
    }

    /// Samples per second: 300 for ECG and BIS, 100 for invasive pressures,
    /// plethysmographs, EEG and entropy, 25 for gases and airway signals, and 0
    /// for the command subrecord, which carries no samples.
    pub open spec fn spec_sample_rate(&self) -> u16 {
        match self {
            WaveformType::Ecg1
            | WaveformType::Ecg2
            | WaveformType::Ecg3
            | WaveformType::EegBis => 300,
            WaveformType::Invp1
            | WaveformType::Invp2
            | WaveformType::Invp3
            | WaveformType::Invp4
            | WaveformType::Invp5
            | WaveformType::Invp6
            | WaveformType::Invp7
            | WaveformType::Invp8
            | WaveformType::Pleth
            | WaveformType::Pleth2
            | WaveformType::Eeg1
            | WaveformType::Eeg2
            | WaveformType::Eeg3
            | WaveformType::Eeg4
            | WaveformType::Ent100 => 100,
            WaveformType::Cmd => 0,
            _ => 25,
        }
    }

    /// The physical unit of a sample.
    pub open spec fn spec_unit(&self) -> Seq<char> {
        match self {
            WaveformType::Ecg1
            | WaveformType::Ecg2
            | WaveformType::Ecg3
            | WaveformType::EegBis => "μV"@,
            WaveformType::Invp1
            | WaveformType::Invp2
            | WaveformType::Invp3
            | WaveformType::Invp4
            | WaveformType::Invp5
            | WaveformType::Invp6
            | WaveformType::Invp7
            | WaveformType::Invp8 => "mmHg (1/100)"@,
            WaveformType::Pleth
            | WaveformType::Pleth2 => "% (1/10)"@,
            WaveformType::Co2
            | WaveformType::O2
            | WaveformType::N2o
            | WaveformType::Aa => "% (1/100)"@,
            WaveformType::Awp => "cmH2O (1/10)"@,
            WaveformType::Flow => "l/min (1/10)"@,
            WaveformType::Vol => "ml"@,
            WaveformType::Resp => "Ω (1/100)"@,
            WaveformType::Eeg1
            | WaveformType::Eeg2
            | WaveformType::Eeg3
            | WaveformType::Eeg4
            | WaveformType::Ent100 => "μV (1/10)"@,
            WaveformType::TonoPress => "mmHg (1/10)"@,
            WaveformType::SpiLoopStatus => "bit pattern"@,
            WaveformType::Cmd => ""@,
        }
    }

    /// What the waveform shows.
    pub open spec fn spec_description(&self) -> Seq<char> {
        match self {
            WaveformType::Ecg1
            | WaveformType::Ecg2
            | WaveformType::Ecg3 => "ECG waveform"@,
            WaveformType::Invp1
            | WaveformType::Invp2
            | WaveformType::Invp3
            | WaveformType::Invp4
            | WaveformType::Invp5
            | WaveformType::Invp6
            | WaveformType::Invp7
            | WaveformType::Invp8 => "Invasive blood pressure"@,
            WaveformType::Pleth
            | WaveformType::Pleth2 => "Plethysmograph"@,
            WaveformType::Co2 => "CO2 concentration"@,
            WaveformType::O2 => "O2 concentration"@,
            WaveformType::N2o => "N2O concentration"@,
            WaveformType::Aa => "Anesthesia agent"@,
            WaveformType::Awp => "Airway pressure"@,
            WaveformType::Flow => "Airway flow"@,
            WaveformType::Vol => "Airway volume"@,
            WaveformType::Resp => "ECG impedance respiration"@,
            WaveformType::Eeg1
            | WaveformType::Eeg2
            | WaveformType::Eeg3
            | WaveformType::Eeg4 => "EEG channel"@,
            WaveformType::TonoPress => "Tonometry catheter pressure"@,
            WaveformType::SpiLoopStatus => "Spirometry loop status"@,
            WaveformType::Ent100 => "Entropy"@,
            WaveformType::EegBis => "BIS"@,
            WaveformType::Cmd => "Command"@,
        }
    }

    /// The byte that stands for this waveform type on the wire.
    #[verifier::when_used_as_spec(spec_code)]
    pub fn code(&self) -> (r: u8)
        ensures
            r == self.spec_code(),
            Self::is_code(r),
    {
        match self {
            WaveformType::Cmd => 0,
            WaveformType::Ecg1 => 1,
            WaveformType::Ecg2 => 2,
            WaveformType::Ecg3 => 3,
            WaveformType::Invp1 => 4,
            WaveformType::Invp2 => 5,
            WaveformType::Invp3 => 6,
            WaveformType::Invp4 => 7,
            WaveformType::Pleth => 8,
            WaveformType::Co2 => 9,
            WaveformType::O2 => 10,
            WaveformType::N2o => 11,
            WaveformType::Aa => 12,
            WaveformType::Awp => 13,
            WaveformType::Flow => 14,
            WaveformType::Resp => 15,
            WaveformType::Invp5 => 16,
            WaveformType::Invp6 => 17,
            WaveformType::Eeg1 => 18,
            WaveformType::Eeg2 => 19,
            WaveformType::Eeg3 => 20,
            WaveformType::Eeg4 => 21,
            WaveformType::Vol => 23,
            WaveformType::TonoPress => 24,
            WaveformType::SpiLoopStatus => 29,
            WaveformType::Ent100 => 32,
            WaveformType::EegBis => 35,
            WaveformType::Invp7 => 36,
            WaveformType::Invp8 => 37,
            WaveformType::Pleth2 => 38,
        }
    }

    /// The waveform type that a byte stands for, if any.
    pub open spec fn spec_from_u8(value: u8) -> Option<Self> {
        if value == 0 {
            Some(WaveformType::Cmd)
        } else if value == 1 {
            Some(WaveformType::Ecg1)
        } else if value == 2 {
            Some(WaveformType::Ecg2)
        } else if value == 3 {
            Some(WaveformType::Ecg3)
        } else if value == 4 {
            Some(WaveformType::Invp1)
        } else if value == 5 {
            Some(WaveformType::Invp2)
        } else if value == 6 {
            Some(WaveformType::Invp3)
        } else if value == 7 {
            Some(WaveformType::Invp4)
        } else if value == 8 {
            Some(WaveformType::Pleth)
        } else if value == 9 {
            Some(WaveformType::Co2)
        } else if value == 10 {
            Some(WaveformType::O2)
        } else if value == 11 {
            Some(WaveformType::N2o)
        } else if value == 12 {
            Some(WaveformType::Aa)
        } else if value == 13 {
            Some(WaveformType::Awp)
        } else if value == 14 {
            Some(WaveformType::Flow)
        } else if value == 15 {
            Some(WaveformType::Resp)
        } else if value == 16 {
            Some(WaveformType::Invp5)
        } else if value == 17 {
            Some(WaveformType::Invp6)
        } else if value == 18 {
            Some(WaveformType::Eeg1)
        } else if value == 19 {
            Some(WaveformType::Eeg2)
        } else if value == 20 {
            Some(WaveformType::Eeg3)
        } else if value == 21 {
            Some(WaveformType::Eeg4)
        } else if value == 23 {
            Some(WaveformType::Vol)
        } else if value == 24 {
            Some(WaveformType::TonoPress)
        } else if value == 29 {
            Some(WaveformType::SpiLoopStatus)
        } else if value == 32 {
            Some(WaveformType::Ent100)
        } else if value == 35 {
            Some(WaveformType::EegBis)
        } else if value == 36 {
            Some(WaveformType::Invp7)
        } else if value == 37 {
            Some(WaveformType::Invp8)
        } else if value == 38 {
            Some(WaveformType::Pleth2)
        } else {
            None
        }
    }

    /// The waveform type that a byte stands for, if any.
    pub fn from_u8(value: u8) -> (r: Option<Self>)
        ensures
            r == Self::spec_from_u8(value),
            r is Some <==> Self::is_code(value),
            r matches Some(wf) ==> wf.spec_code() == value,
    {
        match value {
            0 => Some(WaveformType::Cmd),
            1 => Some(WaveformType::Ecg1),
            2 => Some(WaveformType::Ecg2),
            3 => Some(WaveformType::Ecg3),
            4 => Some(WaveformType::Invp1),
            5 => Some(WaveformType::Invp2),
            6 => Some(WaveformType::Invp3),
            7 => Some(WaveformType::Invp4),
            8 => Some(WaveformType::Pleth),
            9 => Some(WaveformType::Co2),
            10 => Some(WaveformType::O2),
            11 => Some(WaveformType::N2o),
            12 => Some(WaveformType::Aa),
            13 => Some(WaveformType::Awp),
            14 => Some(WaveformType::Flow),
            15 => Some(WaveformType::Resp),
            16 => Some(WaveformType::Invp5),
            17 => Some(WaveformType::Invp6),
            18 => Some(WaveformType::Eeg1),
            19 => Some(WaveformType::Eeg2),
            20 => Some(WaveformType::Eeg3),
            21 => Some(WaveformType::Eeg4),
            23 => Some(WaveformType::Vol),
            24 => Some(WaveformType::TonoPress),
            29 => Some(WaveformType::SpiLoopStatus),
            32 => Some(WaveformType::Ent100),
            35 => Some(WaveformType::EegBis),
            36 => Some(WaveformType::Invp7),
            37 => Some(WaveformType::Invp8),
            38 => Some(WaveformType::Pleth2),
            _ => None,
        }
    }

    /// The name under which this waveform type is displayed and requested.
    pub fn name(&self) -> (r: &'static str)
        ensures
            r@ == self.spec_name(),
    {
        match self {
            WaveformType::Cmd => "CMD",
            WaveformType::Ecg1 => "ECG1",
            WaveformType::Ecg2 => "ECG2",
            WaveformType::Ecg3 => "ECG3",
            WaveformType::Invp1 => "INVP1",
            WaveformType::Invp2 => "INVP2",
            WaveformType::Invp3 => "INVP3",
            WaveformType::Invp4 => "INVP4",
            WaveformType::Pleth => "PLETH",
            WaveformType::Co2 => "CO2",
            WaveformType::O2 => "O2",
            WaveformType::N2o => "N2O",
            WaveformType::Aa => "AA",
            WaveformType::Awp => "AWP",
            WaveformType::Flow => "FLOW",
            WaveformType::Resp => "RESP",
            WaveformType::Invp5 => "INVP5",
            WaveformType::Invp6 => "INVP6",
            WaveformType::Eeg1 => "EEG1",
            WaveformType::Eeg2 => "EEG2",
            WaveformType::Eeg3 => "EEG3",
            WaveformType::Eeg4 => "EEG4",
            WaveformType::Vol => "VOL",
            WaveformType::TonoPress => "TONO_PRESS",
            WaveformType::SpiLoopStatus => "SPI_LOOP_STATUS",
            WaveformType::Ent100 => "ENT_100",
            WaveformType::EegBis => "EEG_BIS",
            WaveformType::Invp7 => "INVP7",
            WaveformType::Invp8 => "INVP8",
            WaveformType::Pleth2 => "PLETH2",
        }
    }

    /// Sample rate, unit and description of this waveform type.
    pub fn info(&self) -> (r: WaveformInfo)
        ensures
            r.describes(*self),
    {
        get_waveform_info(*self)
    }
}

/// Metadata of a waveform type.
#[derive(Debug, Clone)]
pub struct WaveformInfo {
    pub waveform_type: WaveformType,
    pub samples_per_second: u16,
    pub unit: &'static str,
    pub description: &'static str,
}

impl WaveformInfo {
    /// The metadata is that of the given waveform type.
    pub open spec fn describes(&self, wf_type: WaveformType) -> bool {
        &&& self.waveform_type == wf_type
        &&& self.samples_per_second == wf_type.spec_sample_rate()
        &&& self.unit@ == wf_type.spec_unit()
        &&& self.description@ == wf_type.spec_description()
    }
}

/// Sample rate, unit and description of a waveform type.
pub fn get_waveform_info(wf_type: WaveformType) -> (r: WaveformInfo)
    ensures
        r.describes(wf_type),
{
    match wf_type {
        WaveformType::Ecg1
        | WaveformType::Ecg2
        | WaveformType::Ecg3 => WaveformInfo {
            waveform_type: wf_type,
            samples_per_second: 300,
            unit: "μV",
            description: "ECG waveform",
        },
        WaveformType::Invp1
        | WaveformType::Invp2
        | WaveformType::Invp3
        | WaveformType::Invp4
        | WaveformType::Invp5
        | WaveformType::Invp6
        | WaveformType::Invp7
        | WaveformType::Invp8 => WaveformInfo {
            waveform_type: wf_type,
            samples_per_second: 100,
            unit: "mmHg (1/100)",
            description: "Invasive blood pressure",
        },
        WaveformType::Pleth
        | WaveformType::Pleth2 => WaveformInfo {
            waveform_type: wf_type,
            samples_per_second: 100,
            unit: "% (1/10)",
            description: "Plethysmograph",
        },
        WaveformType::Co2 => WaveformInfo {
            waveform_type: wf_type,
            samples_per_second: 25,
            unit: "% (1/100)",
            description: "CO2 concentration",
        },
        WaveformType::O2 => WaveformInfo {
            waveform_type: wf_type,
            samples_per_second: 25,
            unit: "% (1/100)",
            description: "O2 concentration",
        },
        WaveformType::N2o => WaveformInfo {
            waveform_type: wf_type,
            samples_per_second: 25,
            unit: "% (1/100)",
            description: "N2O concentration",
        },
        WaveformType::Aa => WaveformInfo {
            waveform_type: wf_type,
            samples_per_second: 25,
            unit: "% (1/100)",
            description: "Anesthesia agent",
        },
        WaveformType::Awp => WaveformInfo {
            waveform_type: wf_type,
            samples_per_second: 25,
            unit: "cmH2O (1/10)",
            description: "Airway pressure",
        },
        WaveformType::Flow => WaveformInfo {
            waveform_type: wf_type,
            samples_per_second: 25,
            unit: "l/min (1/10)",
            description: "Airway flow",
        },
        WaveformType::Vol => WaveformInfo {
            waveform_type: wf_type,
            samples_per_second: 25,
            unit: "ml",
            description: "Airway volume",
        },
        WaveformType::Resp => WaveformInfo {
            waveform_type: wf_type,
            samples_per_second: 25,
            unit: "Ω (1/100)",
            description: "ECG impedance respiration",
        },
        WaveformType::Eeg1
        | WaveformType::Eeg2
        | WaveformType::Eeg3
        | WaveformType::Eeg4 => WaveformInfo {
            waveform_type: wf_type,
            samples_per_second: 100,
            unit: "μV (1/10)",
            description: "EEG channel",
        },
        WaveformType::TonoPress => WaveformInfo {
            waveform_type: wf_type,
            samples_per_second: 25,
            unit: "mmHg (1/10)",
            description: "Tonometry catheter pressure",
        },
        WaveformType::SpiLoopStatus => WaveformInfo {
            waveform_type: wf_type,
            samples_per_second: 25,
            unit: "bit pattern",
            description: "Spirometry loop status",
        },
        WaveformType::Ent100 => WaveformInfo {
            waveform_type: wf_type,
            samples_per_second: 100,
            unit: "μV (1/10)",
            description: "Entropy",
        },
        WaveformType::EegBis => WaveformInfo {
            waveform_type: wf_type,
            samples_per_second: 300,
            unit: "μV",
            description: "BIS",
        },
        WaveformType::Cmd => WaveformInfo {
            waveform_type: wf_type,
            samples_per_second: 0,
            unit: "",
            description: "Command",
        },
    }
}
/// Largest total sample rate of one waveform request, in samples per second.
pub const MAX_TOTAL_SAMPLE_RATE: u16 = 600;

/// Sum of the sample rates of a set of waveform types.
pub open spec fn spec_total_sample_rate(waveforms: Seq<WaveformType>) -> nat
    decreases waveforms.len(),
{
    if waveforms.len() == 0 {
        0
    } else {
        spec_total_sample_rate(waveforms.drop_last()) + waveforms.last().spec_sample_rate() as nat
    }
}

/// The total rate of a set is at most 300 samples per second for each member.
pub proof fn lemma_total_sample_rate_bound(waveforms: Seq<WaveformType>)
    ensures
        spec_total_sample_rate(waveforms) <= 300 * waveforms.len(),
    decreases waveforms.len(),
{
    if waveforms.len() > 0 {
        lemma_total_sample_rate_bound(waveforms.drop_last());
    }
}

/// A set's total rate is at least that of each of its prefixes.
pub proof fn lemma_total_sample_rate_prefix(waveforms: Seq<WaveformType>, n: int)
    requires
        0 <= n <= waveforms.len(),
    ensures
        spec_total_sample_rate(waveforms.take(n)) <= spec_total_sample_rate(waveforms),
    decreases waveforms.len(),
{
    if n == waveforms.len() {
        assert(waveforms.take(n) =~= waveforms);
    } else {
        lemma_total_sample_rate_prefix(waveforms.drop_last(), n);
        assert(waveforms.drop_last().take(n) =~= waveforms.take(n));
    }
}

/// Taking one waveform out of a set lowers the total rate by the rate of
/// that waveform.
pub proof fn lemma_total_sample_rate_remove(waveforms: Seq<WaveformType>, i: int)
    requires
        0 <= i < waveforms.len(),
    ensures
        spec_total_sample_rate(waveforms) == spec_total_sample_rate(waveforms.remove(i))
            + waveforms[i].spec_sample_rate(),
    decreases waveforms.len(),
{
    if i == waveforms.len() - 1 {
        assert(waveforms.remove(i) =~= waveforms.drop_last());
    } else {
        lemma_total_sample_rate_remove(waveforms.drop_last(), i);
        assert(waveforms.drop_last().remove(i) =~= waveforms.remove(i).drop_last());
        assert(waveforms.remove(i).last() == waveforms.last());
        assert(waveforms.drop_last()[i] == waveforms[i]);
    }
}

/// The total rate belongs to the set, not to the order in which it is
/// written: two sequences that hold the same waveforms the same number of
/// times have the same total rate.
pub proof fn lemma_total_sample_rate_reordered(first: Seq<WaveformType>, second: Seq<WaveformType>)
    requires
        first.to_multiset() == second.to_multiset(),
    ensures
        spec_total_sample_rate(first) == spec_total_sample_rate(second),
    decreases first.len(),
{
    first.to_multiset_ensures();
    second.to_multiset_ensures();
    if first.len() > 0 {
        let last = first.last();
        assert(first[first.len() - 1] == last);
        assert(first.contains(last));
        assert(first.to_multiset().count(last) > 0);
        assert(second.to_multiset().count(last) > 0);
        assert(second.contains(last));
        let j = choose|j: int| 0 <= j < second.len() && second[j] == last;
        assert(first.remove(first.len() - 1) =~= first.drop_last());
        assert(first.drop_last().to_multiset() == second.remove(j).to_multiset());
        lemma_total_sample_rate_reordered(first.drop_last(), second.remove(j));
        lemma_total_sample_rate_remove(second, j);
    }
}

/// Total sample rate of a set of waveform types. The sum has to fit the
/// result type, which it does for every set of up to 218 waveforms.
pub fn calculate_total_sample_rate(waveforms: &[WaveformType]) -> (total: u16)
    requires
        spec_total_sample_rate(waveforms@) <= u16::MAX,
    ensures
        total == spec_total_sample_rate(waveforms@),
{
    let mut total: u16 = 0;
    let mut i: usize = 0;
    while i < waveforms.len()
        invariant
            i <= waveforms.len(),
            total == spec_total_sample_rate(waveforms@.take(i as int)),
            spec_total_sample_rate(waveforms@) <= u16::MAX,
        decreases waveforms.len() - i,
    {
        let rate = get_waveform_info(waveforms[i]).samples_per_second;
        proof {
            lemma_total_sample_rate_prefix(waveforms@, i + 1);
            assert(waveforms@.take(i + 1).drop_last() =~= waveforms@.take(i as int));
        }
        total = total + rate;
        i = i + 1;
    }
    proof {
        assert(waveforms@.take(i as int) =~= waveforms@);
    }
    total
}

/// Whether a waveform set may be requested: its total sample rate must not
/// exceed `MAX_TOTAL_SAMPLE_RATE`.
pub open spec fn spec_valid_waveform_set(waveforms: Seq<WaveformType>) -> bool {
    spec_total_sample_rate(waveforms) <= MAX_TOTAL_SAMPLE_RATE
}

/// Decides whether a waveform set stays within the sample rate limit, for a set
/// of any size.
pub fn waveform_set_within_limit(waveforms: &[WaveformType]) -> (ok: bool)
    ensures
        ok == spec_valid_waveform_set(waveforms@),
{
    let mut total: u16 = 0;
    let mut i: usize = 0;
    while i < waveforms.len()
        invariant
            i <= waveforms.len(),
            total == spec_total_sample_rate(waveforms@.take(i as int)),
            total <= MAX_TOTAL_SAMPLE_RATE,
        decreases waveforms.len() - i,
    {
        let rate = get_waveform_info(waveforms[i]).samples_per_second;
        proof {
            assert(waveforms@.take(i + 1).drop_last() =~= waveforms@.take(i as int));
        }
        if rate > MAX_TOTAL_SAMPLE_RATE - total {
            proof {
                lemma_total_sample_rate_prefix(waveforms@, i + 1);
            }
            return false;
        }
        total = total + rate;
        i = i + 1;
    }
    proof {
        assert(waveforms@.take(i as int) =~= waveforms@);
    }
    true
}

/// Total sample rate of a set of any size, in a type wide enough for it.
fn total_sample_rate_wide(waveforms: &[WaveformType]) -> (total: u128)
    ensures
        total == spec_total_sample_rate(waveforms@),
{
    let mut total: u128 = 0;
    let mut i: usize = 0;
    while i < waveforms.len()
        invariant
            i <= waveforms.len(),
            total == spec_total_sample_rate(waveforms@.take(i as int)),
        decreases waveforms.len() - i,
    {
        let rate = get_waveform_info(waveforms[i]).samples_per_second;
        proof {
            lemma_total_sample_rate_bound(waveforms@.take(i as int));
            assert(waveforms@.take(i + 1).drop_last() =~= waveforms@.take(i as int));
        }
        total = total + rate as u128;
        i = i + 1;
    }
    proof {
        assert(waveforms@.take(i as int) =~= waveforms@);
    }
    total
}

/// Text of the refusal of a waveform set, written with `format!` of the
/// standard library. Nothing is claimed of the text.
#[verifier::external_body]
fn sample_rate_message(total: u128, limit: u16) -> (message: String) {
    format!("Total sample rate {} exceeds maximum {}", total, limit)
}

/// Accepts a waveform set exactly when its total sample rate does not exceed
/// `MAX_TOTAL_SAMPLE_RATE`; the error is a message for the operator.
pub fn validate_waveform_set(waveforms: &[WaveformType]) -> (r: Result<(), String>)
    ensures
        r is Ok <==> spec_valid_waveform_set(waveforms@),
{
    if waveform_set_within_limit(waveforms) {
        Ok(())
    } else {
        Err(sample_rate_message(total_sample_rate_wide(waveforms), MAX_TOTAL_SAMPLE_RATE))
    }
}

} // verus!
