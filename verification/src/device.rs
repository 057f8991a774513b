//! The session with a monitor, without the serial link: what is sent to it
//! and what is made of the bytes it sends.
//!
//! The link itself is the caller's. The caller reads bytes when
//! `Orchestrator::wants_bytes` says so, hands them to `Orchestrator::pull`,
//! and writes the frames built here.

use vstd::prelude::*;
use crate::DriError;
use crate::constants::dri_types::{DriMainType, PHDBCL_REQ_ALL};
use crate::constants::waveforms::WaveformType;
use crate::decode::{
    spec_decode_frame,
    ClassifierLayout,
    Decoder,
    DriRecord,
    DriRecordModel,
};
use crate::decode::subrecords::{spec_le_u16, spec_le_u32};
use crate::protocol::framing::{
    create_frame,
    lemma_run_chunks,
    lemma_run_concat,
    spec_concat,
    spec_event_views,
    spec_frame,
    spec_idle,
    spec_run,
    spec_run_chunks,
    FrameEvent,
    FrameEventModel,
    FrameParser,
    ParserModel,
};
use crate::protocol::header::{
    create_phdb_request,
    spec_effective_interval,
    waveform_request_bytes,
    spec_descriptors,
    spec_header_error,
    spec_phdb_request,
    spec_waveform_request,
    DriHeader,
};
use crate::protocol::request::{
    build_stop_all,
    build_waveform_request,
    spec_waveform_codes,
    spec_waveform_request_error,
    RequestError,
    WaveformRequestType,
    PHDB_DISPLAYED,
    PHDB_TREND_60S,
};

verus! {

/// The upper-case form of a string, as `str::to_uppercase` of the standard
/// library gives it.
pub uninterp spec fn spec_to_uppercase(name: Seq<char>) -> Seq<char>;

/// `str::to_uppercase` of the standard library. The result is the upper-case
/// form of the argument by the Unicode rules, which is not written out here:
/// the contract only names it.
#[verifier::external_body]
fn to_uppercase(name: &str) -> (upper: String)
    ensures
        upper@ == spec_to_uppercase(name@),
{
    name.to_uppercase()
}

/// Whether two strings hold the same characters.
fn same_text(a: &str, b: &str) -> (same: bool)
    ensures
        same == (a@ == b@),
{
    let left: String = a.to_owned();
    let right: String = b.to_owned();
    left == right
}

/// The waveform type that an upper-case name stands for in a request. The
/// entropy waveform answers to `ENT_100` and to `ENT100`.
pub open spec fn spec_waveform_by_name(upper: Seq<char>) -> Option<WaveformType> {
    if upper == "ECG1"@ {
        Some(WaveformType::Ecg1)
    } else if upper == "ECG2"@ {
        Some(WaveformType::Ecg2)
    } else if upper == "ECG3"@ {
        Some(WaveformType::Ecg3)
    } else if upper == "PLETH"@ {
        Some(WaveformType::Pleth)
    } else if upper == "PLETH2"@ {
        Some(WaveformType::Pleth2)
    } else if upper == "CO2"@ {
        Some(WaveformType::Co2)
    } else if upper == "O2"@ {
        Some(WaveformType::O2)
    } else if upper == "N2O"@ {
        Some(WaveformType::N2o)
    } else if upper == "AA"@ {
        Some(WaveformType::Aa)
    } else if upper == "INVP1"@ {
        Some(WaveformType::Invp1)
    } else if upper == "INVP2"@ {
        Some(WaveformType::Invp2)
    } else if upper == "INVP3"@ {
        Some(WaveformType::Invp3)
    } else if upper == "INVP4"@ {
        Some(WaveformType::Invp4)
    } else if upper == "INVP5"@ {
        Some(WaveformType::Invp5)
    } else if upper == "INVP6"@ {
        Some(WaveformType::Invp6)
    } else if upper == "INVP7"@ {
        Some(WaveformType::Invp7)
    } else if upper == "INVP8"@ {
        Some(WaveformType::Invp8)
    } else if upper == "AWP"@ {
        Some(WaveformType::Awp)
    } else if upper == "FLOW"@ {
        Some(WaveformType::Flow)
    } else if upper == "RESP"@ {
        Some(WaveformType::Resp)
    } else if upper == "EEG1"@ {
        Some(WaveformType::Eeg1)
    } else if upper == "EEG2"@ {
        Some(WaveformType::Eeg2)
    } else if upper == "EEG3"@ {
        Some(WaveformType::Eeg3)
    } else if upper == "EEG4"@ {
        Some(WaveformType::Eeg4)
    } else if upper == "ENT_100"@ || upper == "ENT100"@ {
        Some(WaveformType::Ent100)
    } else {
        None
    }
}

/// The waveform type that an upper-case name stands for in a request.
pub fn waveform_by_upper_name(upper: &str) -> (r: Option<WaveformType>)
    ensures
        r == spec_waveform_by_name(upper@),
{
    if same_text(upper, "ECG1") {
        Some(WaveformType::Ecg1)
    } else if same_text(upper, "ECG2") {
        Some(WaveformType::Ecg2)
    } else if same_text(upper, "ECG3") {
        Some(WaveformType::Ecg3)
    } else if same_text(upper, "PLETH") {
        Some(WaveformType::Pleth)
    } else if same_text(upper, "PLETH2") {
        Some(WaveformType::Pleth2)
    } else if same_text(upper, "CO2") {
        Some(WaveformType::Co2)
    } else if same_text(upper, "O2") {
        Some(WaveformType::O2)
    } else if same_text(upper, "N2O") {
        Some(WaveformType::N2o)
    } else if same_text(upper, "AA") {
        Some(WaveformType::Aa)
    } else if same_text(upper, "INVP1") {
        Some(WaveformType::Invp1)
    } else if same_text(upper, "INVP2") {
        Some(WaveformType::Invp2)
    } else if same_text(upper, "INVP3") {
        Some(WaveformType::Invp3)
    } else if same_text(upper, "INVP4") {
        Some(WaveformType::Invp4)
    } else if same_text(upper, "INVP5") {
        Some(WaveformType::Invp5)
    } else if same_text(upper, "INVP6") {
        Some(WaveformType::Invp6)
    } else if same_text(upper, "INVP7") {
        Some(WaveformType::Invp7)
    } else if same_text(upper, "INVP8") {
        Some(WaveformType::Invp8)
    } else if same_text(upper, "AWP") {
        Some(WaveformType::Awp)
    } else if same_text(upper, "FLOW") {
        Some(WaveformType::Flow)
    } else if same_text(upper, "RESP") {
        Some(WaveformType::Resp)
    } else if same_text(upper, "EEG1") {
        Some(WaveformType::Eeg1)
    } else if same_text(upper, "EEG2") {
        Some(WaveformType::Eeg2)
    } else if same_text(upper, "EEG3") {
        Some(WaveformType::Eeg3)
    } else if same_text(upper, "EEG4") {
        Some(WaveformType::Eeg4)
    } else if same_text(upper, "ENT_100") || same_text(upper, "ENT100") {
        Some(WaveformType::Ent100)
    } else {
        None
    }
}

/// The waveform type that a name stands for in a request, in any mix of upper
/// and lower case. `None` for a name that stands for none.
pub fn parse_waveform_name(name: &str) -> (r: Option<WaveformType>)
    ensures
        r == spec_waveform_by_name(spec_to_uppercase(name@)),
{
    let upper = to_uppercase(name);
    waveform_by_upper_name(upper.as_str())
}

/// The waveform types that a list of names stands for, in the order of the
/// names; names that stand for none are left out.
pub open spec fn spec_named_waveforms(names: Seq<&str>) -> Seq<WaveformType>
    decreases names.len(),
{
    if names.len() == 0 {
        Seq::empty()
    } else {
        let before = spec_named_waveforms(names.drop_last());
        match spec_waveform_by_name(spec_to_uppercase(names.last()@)) {
            Some(waveform) => before.push(waveform),
            None => before,
        }
    }
}

/// The waveform types that a list of names stands for, in the order of the
/// names. Names that stand for no waveform are left out.
pub fn waveforms_from_names(names: &[&str]) -> (types: Vec<WaveformType>)
    ensures
        types@ == spec_named_waveforms(names@),
{
    let mut types: Vec<WaveformType> = Vec::new();
    let mut i: usize = 0;
    while i < names.len()
        invariant
            i <= names.len(),
            types@ == spec_named_waveforms(names@.take(i as int)),
        decreases names.len() - i,
    {
        proof {
            assert(names@.take(i + 1).drop_last() =~= names@.take(i as int));
            assert(names@.take(i + 1).last() == names@[i as int]);
        }
        match parse_waveform_name(names[i]) {
            Some(waveform) => {
                types.push(waveform);
            },
            None => {},
        }
        i += 1;
    }
    proof {
        assert(names@.take(i as int) =~= names@);
    }
    types
}

/// The frame that requests displayed values of every class. An interval of
/// 0 stops their transmission; the monitor sends them no faster than every 5
/// seconds, so an interval of 1 to 4 seconds is raised to 5.
pub fn displayed_values_frame(interval: u16) -> (frame: Vec<u8>)
    ensures
        frame@ == spec_frame(
            spec_phdb_request(
                PHDB_DISPLAYED,
                spec_effective_interval(PHDB_DISPLAYED, interval),
                PHDBCL_REQ_ALL,
            ),
        ),
{
    let request = create_phdb_request(PHDB_DISPLAYED, interval, PHDBCL_REQ_ALL);
    create_frame(request.as_slice())
}

/// The frame that requests the 60 s trends of every class.
pub fn trend_60s_frame() -> (frame: Vec<u8>)
    ensures
        frame@ == spec_frame(spec_phdb_request(PHDB_TREND_60S, 1, PHDBCL_REQ_ALL)),
{
    let request = create_phdb_request(PHDB_TREND_60S, 1, PHDBCL_REQ_ALL);
    create_frame(request.as_slice())
}

/// Why no frame is sent to start the transmission of a set of waveforms,
/// `None` where one is sent: there has to be a waveform to start, and the
/// request has to be built.
pub open spec fn spec_waveforms_frame_error(types: Seq<WaveformType>) -> Option<RequestError> {
    if types.len() == 0 {
        Some(RequestError::NoWaveforms)
    } else {
        spec_waveform_request_error(types)
    }
}

/// The frame that starts the continuous transmission of a set of waveforms.
/// Without a waveform there is nothing to start: the empty set is refused
/// with `NoWaveforms`. Every other set is refused exactly as the request
/// builder refuses it.
pub fn waveforms_frame(types: &[WaveformType]) -> (result: Result<Vec<u8>, RequestError>)
    ensures
        match result {
            Ok(frame) => spec_waveforms_frame_error(types@) is None && frame@ == spec_frame(
                spec_waveform_request(spec_waveform_codes(types@), 0),
            ),
            Err(e) => spec_waveforms_frame_error(types@) == Some(e),
        },
{
    if types.len() == 0 {
        return Err(RequestError::NoWaveforms);
    }
    match build_waveform_request(types, WaveformRequestType::Start) {
        Ok(request) => Ok(create_frame(request.as_slice())),
        Err(e) => Err(e),
    }
}

/// The frame that stops the transmission of waveforms.
pub fn stop_waveforms_frame() -> (frame: Vec<u8>)
    ensures
        frame@ == spec_frame(spec_waveform_request(Seq::empty(), 1)),
{
    let none: Vec<u8> = Vec::new();
    let request = waveform_request_bytes(none.as_slice(), 1);
    create_frame(request.as_slice())
}

/// The frames that stop every transmission, in the order in which they are
/// sent: displayed values, trends, waveforms.
pub fn stop_all_frames() -> (frames: Vec<Vec<u8>>)
    ensures
        frames@.len() == 3,
        frames@[0]@ == spec_frame(spec_phdb_request(PHDB_DISPLAYED, 0, 0)),
        frames@[1]@ == spec_frame(spec_phdb_request(PHDB_TREND_60S, 0, 0)),
        frames@[2]@ == spec_frame(spec_waveform_request(Seq::empty(), 1)),
{
    let requests = build_stop_all();
    let mut frames: Vec<Vec<u8>> = Vec::new();
    frames.push(create_frame(requests[0].as_slice()));
    frames.push(create_frame(requests[1].as_slice()));
    frames.push(create_frame(requests[2].as_slice()));
    frames
}

/// What a pull on the record stream yields.
#[derive(Debug)]
pub enum PullOutcome {
    /// A decoded record.
    Record(DriRecord),
    /// A record of a main type that is recognized but not decoded, or a
    /// waveform record without a waveform.
    Unsupported(DriMainType),
    /// No record this turn: no frame is complete yet.
    Pending,
    /// A frame or record that had to be dropped, and why.
    Failed(DriError),
}

/// Mathematical value of what a pull yields.
pub enum PullModel {
    Record(DriRecordModel),
    Unsupported(DriMainType),
    Pending,
    Failed(DriError),
}

impl View for PullOutcome {
    type V = PullModel;

    open spec fn view(&self) -> PullModel {
        match self {
            PullOutcome::Record(record) => PullModel::Record(record@),
            PullOutcome::Unsupported(main_type) => PullModel::Unsupported(*main_type),
            PullOutcome::Pending => PullModel::Pending,
            PullOutcome::Failed(e) => PullModel::Failed(*e),
        }
    }
}

/// What the payload of a frame decodes to: the header is parsed, and the
/// data region after it is decoded by the main type of the header.
pub open spec fn spec_decode_payload(layout: ClassifierLayout, payload: Seq<u8>) -> PullModel {
    match spec_header_error(payload) {
        Some(e) => PullModel::Failed(e),
        None => {
            let main_type = DriMainType::spec_from_u16(spec_le_u16(payload[16], payload[17]))->0;
            match spec_decode_frame(
                layout,
                main_type,
                spec_descriptors(payload),
                spec_le_u32(payload[6], payload[7], payload[8], payload[9]),
                payload.skip(40),
            ) {
                Ok(Some(record)) => PullModel::Record(record),
                Ok(None) => PullModel::Unsupported(main_type),
                Err(e) => PullModel::Failed(e),
            }
        },
    }
}

/// What an event of the frame parser becomes in the record stream.
pub open spec fn spec_outcome_of(layout: ClassifierLayout, event: FrameEventModel) -> PullModel {
    match event {
        FrameEventModel::Frame(frame) => spec_decode_payload(layout, frame.data),
        FrameEventModel::Fault(e) => PullModel::Failed(e),
    }
}

/// The record stream of a byte stream: what each event of the frame parser
/// becomes, in the order of the events.
pub open spec fn spec_record_stream(layout: ClassifierLayout, m: ParserModel, bytes: Seq<u8>) -> Seq<
    PullModel,
> {
    spec_run(m, bytes).1.map_values(|event: FrameEventModel| spec_outcome_of(layout, event))
}

/// The record stream of a byte stream that arrives in chunks.
pub open spec fn spec_record_stream_chunks(
    layout: ClassifierLayout,
    m: ParserModel,
    chunks: Seq<Seq<u8>>,
) -> Seq<PullModel> {
    spec_run_chunks(m, chunks).1.map_values(
        |event: FrameEventModel| spec_outcome_of(layout, event),
    )
}

/// However a byte stream is cut into chunks, whether byte by byte or in any
/// other way, the record stream is the same: that of the whole byte stream.
pub proof fn lemma_record_stream_partition(
    layout: ClassifierLayout,
    m: ParserModel,
    chunks: Seq<Seq<u8>>,
)
    ensures
        spec_record_stream_chunks(layout, m, chunks) == spec_record_stream(
            layout,
            m,
            spec_concat(chunks),
        ),
{
    lemma_run_chunks(m, chunks);
}

/// Decodes the payload of a frame: header first, then the data after it.
pub fn decode_payload(decoder: &Decoder, payload: &[u8]) -> (outcome: PullOutcome)
    ensures
        outcome@ == spec_decode_payload(decoder.classifier_layout, payload@),
{
    let header = match DriHeader::parse(payload) {
        Ok(header) => header,
        Err(e) => {
            return PullOutcome::Failed(e);
        },
    };
    let data = match header.extract_data(payload) {
        Ok(data) => data,
        Err(e) => {
            return PullOutcome::Failed(e);
        },
    };
    match decoder.decode_frame(&header, data) {
        Ok(Some(record)) => PullOutcome::Record(record),
        Ok(None) => PullOutcome::Unsupported(header.r_maintype),
        Err(e) => PullOutcome::Failed(e),
    }
}

/// What an event of the frame parser becomes in the record stream: a frame
/// is decoded, a fault is passed on.
pub fn decode_event(decoder: &Decoder, event: &FrameEvent) -> (outcome: PullOutcome)
    ensures
        outcome@ == spec_outcome_of(decoder.classifier_layout, event@),
{
    match event {
        FrameEvent::Frame(frame) => decode_payload(decoder, frame.data.as_slice()),
        FrameEvent::Fault(e) => PullOutcome::Failed(*e),
    }
}

/// Ties the byte stream to the record stream: holds the frame parser and the
/// events that are waiting to be pulled, and remembers, for the proofs only,
/// which bytes it was fed and how many outcomes it gave.
pub struct Orchestrator {
    parser: FrameParser,
    decoder: Decoder,
    pending: Vec<FrameEvent>,
    fed: Ghost<Seq<u8>>,
    pulled: Ghost<nat>,
}

/// Mathematical value of an orchestrator.
pub struct OrchestratorModel {
    /// State of the frame parser.
    pub parser: ParserModel,
    /// Classifier layout of the decoder.
    pub layout: ClassifierLayout,
    /// Events that were parsed and not pulled yet, oldest first.
    pub pending: Seq<FrameEventModel>,
    /// Every byte fed since the start of the stream or the last reset.
    pub fed: Seq<u8>,
    /// Number of outcomes given since then, `Pending` not counted.
    pub pulled: nat,
}

impl View for Orchestrator {
    type V = OrchestratorModel;

    closed spec fn view(&self) -> OrchestratorModel {
        OrchestratorModel {
            parser: self.parser@,
            layout: self.decoder.classifier_layout,
            pending: spec_event_views(self.pending@),
            fed: self.fed@,
            pulled: self.pulled@,
        }
    }
}

/// The state of an orchestrator fits its history: the parser is where the
/// bytes fed have brought it, and the events waiting are those of the bytes
/// fed that were not pulled yet.
pub open spec fn spec_consistent(m: OrchestratorModel) -> bool {
    let run = spec_run(spec_idle(), m.fed);
    &&& m.parser == run.0
    &&& m.pulled <= run.1.len()
    &&& m.pending == run.1.skip(m.pulled as int)
}

impl Orchestrator {
    /// An orchestrator at the start of a byte stream.
    pub fn new(decoder: Decoder) -> (orchestrator: Self)
        ensures
            spec_consistent(orchestrator@),
            orchestrator@.parser == spec_idle(),
            orchestrator@.layout == decoder.classifier_layout,
            orchestrator@.pending == Seq::<FrameEventModel>::empty(),
            orchestrator@.fed == Seq::<u8>::empty(),
            orchestrator@.pulled == 0,
    {
        let orchestrator = Self {
            parser: FrameParser::new(),
            decoder,
            pending: Vec::new(),
            fed: Ghost(Seq::empty()),
            pulled: Ghost(0),
        };
        proof {
            assert(spec_event_views(orchestrator.pending@) =~= Seq::<FrameEventModel>::empty());
            assert(spec_run(spec_idle(), Seq::<u8>::empty()).1.skip(0)
                =~= Seq::<FrameEventModel>::empty());
        }
        orchestrator
    }

    /// Whether the next pull needs bytes from the link to yield a record:
    /// nothing is waiting to be pulled.
    pub fn wants_bytes(&self) -> (wants: bool)
        ensures
            wants == (self@.pending.len() == 0),
    {
        self.pending.len() == 0
    }

    /// Gives the next event of the frame parser: a frame or a fault. The
    /// bytes read from the link this turn, none where none were read, are
    /// parsed first; then the oldest event that is waiting is handed out.
    /// `None` says that nothing is waiting.
    pub fn pull_event(&mut self, bytes: &[u8]) -> (event: Option<FrameEvent>)
        requires
            spec_consistent(old(self)@),
        ensures
            spec_consistent(final(self)@),
            final(self)@.layout == old(self)@.layout,
            final(self)@.fed == old(self)@.fed + bytes@,
            final(self)@.parser == spec_run(old(self)@.parser, bytes@).0,
            ({
                let waiting = old(self)@.pending + spec_run(old(self)@.parser, bytes@).1;
                match event {
                    None => {
                        &&& waiting.len() == 0
                        &&& final(self)@.pending == waiting
                        &&& final(self)@.pulled == old(self)@.pulled
                    },
                    Some(e) => {
                        &&& waiting.len() > 0
                        &&& e@ == waiting.first()
                        &&& final(self)@.pending == waiting.drop_first()
                        &&& final(self)@.pulled == old(self)@.pulled + 1
                    },
                }
            }),
            event matches Some(e) ==> old(self)@.pulled < spec_run(
                spec_idle(),
                final(self)@.fed,
            ).1.len() && e@ == spec_run(spec_idle(), final(self)@.fed).1[old(
                self,
            )@.pulled as int],
    {
        let ghost idle = spec_idle();
        let ghost before = spec_event_views(self.pending@);
        let ghost history = spec_run(idle, self.fed@).1;
        let mut events = self.parser.feed(bytes);
        let ghost fresh = spec_event_views(events@);
        self.pending.append(&mut events);
        proof {
            lemma_run_concat(idle, self.fed@, bytes@);
            assert(spec_event_views(self.pending@) =~= before + fresh);
            assert((history + fresh).skip(self.pulled@ as int) =~= before + fresh);
            self.fed@ = self.fed@ + bytes@;
        }
        if self.pending.len() == 0 {
            return None;
        }
        let ghost waiting = spec_event_views(self.pending@);
        let event = self.pending.remove(0);
        proof {
            assert(spec_event_views(self.pending@) =~= waiting.drop_first());
            assert(event@ == waiting.first());
            assert(waiting.first() == (history + fresh)[self.pulled@ as int]);
            assert((history + fresh).skip(self.pulled@ as int + 1) =~= waiting.drop_first());
            self.pulled@ = self.pulled@ + 1;
        }
        Some(event)
    }

    /// Gives the next record. The bytes read from the link this turn, none
    /// where none were read, are parsed first; then the oldest event that is
    /// waiting becomes the outcome. `Pending` says that nothing is waiting.
    ///
    /// The outcomes of successive pulls are the record stream of all the
    /// bytes fed, one after the other: the outcome number `k` is element `k`
    /// of that stream, however the bytes were cut into chunks.
    pub fn pull(&mut self, bytes: &[u8]) -> (outcome: PullOutcome)
        requires
            spec_consistent(old(self)@),
        ensures
            spec_consistent(final(self)@),
            final(self)@.layout == old(self)@.layout,
            final(self)@.fed == old(self)@.fed + bytes@,
            final(self)@.parser == spec_run(old(self)@.parser, bytes@).0,
            ({
                let waiting = old(self)@.pending + spec_run(old(self)@.parser, bytes@).1;
                if waiting.len() == 0 {
                    &&& outcome@ == PullModel::Pending
                    &&& final(self)@.pending == waiting
                    &&& final(self)@.pulled == old(self)@.pulled
                } else {
                    &&& outcome@ == spec_outcome_of(old(self)@.layout, waiting.first())
                    &&& final(self)@.pending == waiting.drop_first()
                    &&& final(self)@.pulled == old(self)@.pulled + 1
                }
            }),
            outcome@ != PullModel::Pending ==> old(self)@.pulled < spec_record_stream(
                old(self)@.layout,
                spec_idle(),
                final(self)@.fed,
            ).len() && outcome@ == spec_record_stream(
                old(self)@.layout,
                spec_idle(),
                final(self)@.fed,
            )[old(self)@.pulled as int],
    {
        match self.pull_event(bytes) {
            None => PullOutcome::Pending,
            Some(event) => {
                proof {
                    lemma_outcome_never_pending(self.decoder.classifier_layout, event@);
                }
                decode_event(&self.decoder, &event)
            },
        }
    }

    /// Drops the frame in progress and every event that is waiting, and
    /// starts a new history.
    pub fn reset_parser(&mut self)
        ensures
            spec_consistent(final(self)@),
            final(self)@.layout == old(self)@.layout,
            final(self)@.parser == spec_idle(),
            final(self)@.pending == Seq::<FrameEventModel>::empty(),
            final(self)@.fed == Seq::<u8>::empty(),
            final(self)@.pulled == 0,
    {
        self.parser.reset();
        self.pending.clear();
        proof {
            self.fed@ = Seq::empty();
            self.pulled@ = 0;
            assert(spec_event_views(self.pending@) =~= Seq::<FrameEventModel>::empty());
            assert(spec_run(spec_idle(), Seq::<u8>::empty()).1.skip(0)
                =~= Seq::<FrameEventModel>::empty());
        }
    }
}

/// An event of the frame parser never becomes `Pending`: that outcome is
/// left to the turns in which no event is waiting.
pub proof fn lemma_outcome_never_pending(layout: ClassifierLayout, event: FrameEventModel)
    ensures
        spec_outcome_of(layout, event) != PullModel::Pending,
{
}

} // verus!
