//! Framing: byte stuffing, the streaming frame parser and the frame encoder.
//!
//! A frame travels as the delimiter `0x7E`, the stuffed payload and checksum,
//! and a closing delimiter. The parser is modelled as a pure step function on
//! its state; everything the executable parser does is stated against that
//! model, and the laws of the model are proved at the end of the file.

use vstd::prelude::*;
use crate::DriError;
use crate::constants::{BIT5, CTRL_CHAR, FRAME_CHAR};
use crate::protocol::checksum::{calculate_checksum, spec_checksum};

verus! {

/// A complete frame: the unstuffed payload and the checksum that came with it.
#[derive(Debug, Clone)]
pub struct DriFrame {
    /// Unstuffed payload, without delimiters and checksum.
    pub data: Vec<u8>,
    /// Checksum byte.
    pub checksum: u8,
}

/// Mathematical value of a frame.
pub struct FrameModel {
    pub data: Seq<u8>,
    pub checksum: u8,
}

impl View for DriFrame {
    type V = FrameModel;

    open spec fn view(&self) -> FrameModel {
        FrameModel { data: self.data@, checksum: self.checksum }
    }
}

impl DriFrame {
    /// A frame is valid when its checksum is that of its payload.
    pub open spec fn spec_validate(&self) -> bool {
        self.checksum == spec_checksum(self.data@)
    }

    /// A frame of the given payload and checksum.
    pub fn new(data: Vec<u8>, checksum: u8) -> (frame: Self)
        ensures
            frame.data == data,
            frame.checksum == checksum,
    {
        Self { data, checksum }
    }

    /// The payload followed by the checksum.
    pub fn complete_data(&self) -> (r: Vec<u8>)
        ensures
            r@ == self.data@.push(self.checksum),
    {
        let mut result: Vec<u8> = Vec::new();
        let mut i: usize = 0;
        while i < self.data.len()
            invariant
                i <= self.data.len(),
                result@ == self.data@.take(i as int),
            decreases self.data.len() - i,
        {
            result.push(self.data[i]);
            proof {
                assert(self.data@.take(i + 1) =~= self.data@.take(i as int).push(self.data@[i as int]));
            }
            i = i + 1;
        }
        proof {
            assert(self.data@.take(i as int) =~= self.data@);
        }
        result.push(self.checksum);
        result
    }

    /// Whether the checksum is that of the payload.
    pub fn validate(&self) -> (valid: bool)
        ensures
            valid == self.spec_validate(),
    {
        calculate_checksum(self.data.as_slice()) == self.checksum
    }
}

/// Where the parser stands in the byte stream.
#[derive(Debug, Clone, Copy, PartialEq, Eq, Structural)]
pub enum ParserState {
    /// Outside a frame, waiting for a delimiter.
    WaitingForStart,
    /// Inside a frame, collecting bytes.
    InFrame,
    /// Inside a frame, right after the escape byte.
    NeedUnstuff,
}

/// Mathematical value of a parser: its state and the bytes collected so far.
pub struct ParserModel {
    pub state: ParserState,
    pub buffer: Seq<u8>,
}

/// What the parser emits when a frame closes.
pub enum FrameEventModel {
    /// A frame with a matching checksum.
    Frame(FrameModel),
    /// A closed frame that had to be dropped.
    Fault(DriError),
}

/// The parser between frames, with nothing collected.
pub open spec fn spec_idle() -> ParserModel {
    ParserModel { state: ParserState::WaitingForStart, buffer: Seq::empty() }
}

/// What closing a frame yields for the bytes collected in it. Nothing was
/// collected: no event. One byte: the frame is incomplete. Otherwise the last
/// byte is the checksum of the others, or the frame is dropped.
pub open spec fn spec_close(buffer: Seq<u8>) -> Option<FrameEventModel> {
    if buffer.len() == 0 {
        None
    } else if buffer.len() < 2 {
        Some(FrameEventModel::Fault(DriError::IncompleteFrame))
    } else if buffer.last() == spec_checksum(buffer.drop_last()) {
        Some(
            FrameEventModel::Frame(
                FrameModel { data: buffer.drop_last(), checksum: buffer.last() },
            ),
        )
    } else {
        Some(FrameEventModel::Fault(DriError::ChecksumError))
    }
}

/// One step of the parser: the state after a byte, and the event the byte
/// caused, if any.
pub open spec fn spec_step(m: ParserModel, byte: u8) -> (ParserModel, Option<FrameEventModel>) {
    match m.state {
        ParserState::WaitingForStart => {
            if byte == FRAME_CHAR {
                (ParserModel { state: ParserState::InFrame, buffer: Seq::empty() }, None)
            } else {
                (m, None)
            }
        },
        ParserState::InFrame => {
            if byte == FRAME_CHAR {
                (spec_idle(), spec_close(m.buffer))
            } else if byte == CTRL_CHAR {
                (ParserModel { state: ParserState::NeedUnstuff, buffer: m.buffer }, None)
            } else {
                (ParserModel { state: ParserState::InFrame, buffer: m.buffer.push(byte) }, None)
            }
        },
        ParserState::NeedUnstuff => {
            (ParserModel { state: ParserState::InFrame, buffer: m.buffer.push(byte | BIT5) }, None)
        },
    }
}

/// An optional event as a sequence of at most one event.
pub open spec fn spec_event_seq(event: Option<FrameEventModel>) -> Seq<FrameEventModel> {
    match event {
        Some(e) => seq![e],
        None => Seq::empty(),
    }
}

/// The parser run over a byte sequence: the final state and every event, in
/// the order in which the closing delimiters were met.
pub open spec fn spec_run(m: ParserModel, bytes: Seq<u8>) -> (ParserModel, Seq<FrameEventModel>)
    decreases bytes.len(),
{
    if bytes.len() == 0 {
        (m, Seq::empty())
    } else {
        let (next, event) = spec_step(m, bytes.first());
        let (last, events) = spec_run(next, bytes.drop_first());
        (last, spec_event_seq(event) + events)
    }
}

/// The parser run over a sequence of chunks, one after the other.
pub open spec fn spec_run_chunks(m: ParserModel, chunks: Seq<Seq<u8>>) -> (
    ParserModel,
    Seq<FrameEventModel>,
)
    decreases chunks.len(),
{
    if chunks.len() == 0 {
        (m, Seq::empty())
    } else {
        let (next, head) = spec_run(m, chunks.first());
        let (last, tail) = spec_run_chunks(next, chunks.drop_first());
        (last, head + tail)
    }
}

/// The chunks of a sequence joined into one byte sequence.
pub open spec fn spec_concat(chunks: Seq<Seq<u8>>) -> Seq<u8>
    decreases chunks.len(),
{
    if chunks.len() == 0 {
        Seq::empty()
    } else {
        chunks.first() + spec_concat(chunks.drop_first())
    }
}

/// The frames among a sequence of events, in order.
pub open spec fn spec_frames_of(events: Seq<FrameEventModel>) -> Seq<FrameModel>
    decreases events.len(),
{
    if events.len() == 0 {
        Seq::empty()
    } else {
        match events.first() {
            FrameEventModel::Frame(f) => seq![f] + spec_frames_of(events.drop_first()),
            FrameEventModel::Fault(_) => spec_frames_of(events.drop_first()),
        }
    }
}

/// Whether no event of a sequence is a fault.
pub open spec fn spec_fault_free(events: Seq<FrameEventModel>) -> bool {
    forall|i: int| 0 <= i < events.len() ==> (#[trigger] events[i]) is Frame
}

/// The first fault among a sequence of events, if there is one.
pub open spec fn spec_first_fault(events: Seq<FrameEventModel>) -> Option<DriError>
    decreases events.len(),
{
    if events.len() == 0 {
        None
    } else {
        match events.first() {
            FrameEventModel::Fault(e) => Some(e),
            FrameEventModel::Frame(_) => spec_first_fault(events.drop_first()),
        }
    }
}

/// What feeding a chunk gives for the events the chunk caused: the frames
/// among them, in order; where there is none and a frame was dropped, the
/// first fault instead.
pub open spec fn spec_chunk_result(events: Seq<FrameEventModel>) -> Result<
    Seq<FrameModel>,
    DriError,
> {
    if spec_frames_of(events).len() > 0 {
        Ok(spec_frames_of(events))
    } else {
        match spec_first_fault(events) {
            Some(e) => Err(e),
            None => Ok(Seq::empty()),
        }
    }
}

/// The frames that feeding a stream chunk by chunk gives, one chunk after
/// the other.
pub open spec fn spec_frames_of_chunks(m: ParserModel, chunks: Seq<Seq<u8>>) -> Seq<FrameModel>
    decreases chunks.len(),
{
    if chunks.len() == 0 {
        Seq::empty()
    } else {
        spec_frames_of(spec_run(m, chunks.first()).1) + spec_frames_of_chunks(
            spec_run(m, chunks.first()).0,
            chunks.drop_first(),
        )
    }
}

/// The values of a sequence of frames.
pub open spec fn spec_frame_views(frames: Seq<DriFrame>) -> Seq<FrameModel> {
    frames.map_values(|f: DriFrame| f@)
}

/// What the parser emits when a frame closes.
#[derive(Debug)]
pub enum FrameEvent {
    /// A frame with a matching checksum.
    Frame(DriFrame),
    /// A closed frame that had to be dropped.
    Fault(DriError),
}

impl View for FrameEvent {
    type V = FrameEventModel;

    open spec fn view(&self) -> FrameEventModel {
        match self {
            FrameEvent::Frame(frame) => FrameEventModel::Frame(frame@),
            FrameEvent::Fault(e) => FrameEventModel::Fault(*e),
        }
    }
}

/// The values of a sequence of events.
pub open spec fn spec_event_views(events: Seq<FrameEvent>) -> Seq<FrameEventModel> {
    events.map_values(|e: FrameEvent| e@)
}

/// What a byte is replaced with on the wire: the delimiter and the escape byte
/// become the escape byte followed by the byte with bit 5 cleared, every other
/// byte stands for itself.
pub open spec fn spec_stuff_byte(byte: u8) -> Seq<u8> {
    if byte == FRAME_CHAR || byte == CTRL_CHAR {
        seq![CTRL_CHAR, byte & !BIT5]
    } else {
        seq![byte]
    }
}

/// A byte sequence with every byte stuffed.
pub open spec fn spec_stuff(data: Seq<u8>) -> Seq<u8>
    decreases data.len(),
{
    if data.len() == 0 {
        Seq::empty()
    } else {
        spec_stuff_byte(data.first()) + spec_stuff(data.drop_first())
    }
}

/// The wire form of a payload: delimiter, the stuffed payload and checksum,
/// delimiter. The checksum is taken over the payload before stuffing.
pub open spec fn spec_frame(payload: Seq<u8>) -> Seq<u8> {
    seq![FRAME_CHAR] + spec_stuff(payload.push(spec_checksum(payload))) + seq![FRAME_CHAR]
}

/// Whether the result of one parser step reports the given event.
pub open spec fn spec_reports(
    result: Result<Option<DriFrame>, DriError>,
    event: Option<FrameEventModel>,
) -> bool {
    match event {
        None => result matches Ok(None),
        Some(FrameEventModel::Frame(f)) => result matches Ok(Some(frame)) && frame@ == f,
        Some(FrameEventModel::Fault(e)) => result matches Err(err) && err == e,
    }
}

/// Streaming parser that cuts a byte stream into frames. It can be fed one
/// byte at a time or in chunks of any size.
#[derive(Debug)]
pub struct FrameParser {
    state: ParserState,
    buffer: Vec<u8>,
}

impl View for FrameParser {
    type V = ParserModel;

    closed spec fn view(&self) -> ParserModel {
        ParserModel { state: self.state, buffer: self.buffer@ }
    }
}

impl FrameParser {
    /// A parser between frames, with nothing collected.
    pub fn new() -> (parser: Self)
        ensures
            parser@ == spec_idle(),
    {
        Self { state: ParserState::WaitingForStart, buffer: Vec::with_capacity(2048) }
    }

    /// Drops whatever was collected and waits for the next delimiter.
    pub fn reset(&mut self)
        ensures
            final(self)@ == spec_idle(),
    {
        self.state = ParserState::WaitingForStart;
        self.buffer.clear();
    }

    /// Feeds one byte. Returns a frame when the byte closes a valid frame, an
    /// error when it closes a frame that has to be dropped, and `Ok(None)`
    /// otherwise. After an error the parser waits for the next delimiter.
    pub fn process_byte(&mut self, byte: u8) -> (result: Result<Option<DriFrame>, DriError>)
        ensures
            final(self)@ == spec_step(old(self)@, byte).0,
            spec_reports(result, spec_step(old(self)@, byte).1),
            result matches Ok(Some(frame)) ==> frame.spec_validate(),
    {
        match self.state {
            ParserState::WaitingForStart => {
                if byte == FRAME_CHAR {
                    self.state = ParserState::InFrame;
                    self.buffer.clear();
                }
                Ok(None)
            },
            ParserState::InFrame => {
                if byte == FRAME_CHAR {
                    self.finalize_frame()
                } else if byte == CTRL_CHAR {
                    self.state = ParserState::NeedUnstuff;
                    Ok(None)
                } else {
                    self.buffer.push(byte);
                    Ok(None)
                }
            },
            ParserState::NeedUnstuff => {
                let unstuffed = byte | BIT5;
                self.buffer.push(unstuffed);
                self.state = ParserState::InFrame;
                Ok(None)
            },
        }
    }

    /// Feeds a chunk of bytes and returns the frames completed in it, in
    /// stream order. A frame that has to be dropped costs that frame and
    /// nothing else: every byte of the chunk is parsed, and the frames before
    /// and after the dropped one are returned. Where the chunk completes no
    /// frame and at least one frame was dropped, the first fault is returned
    /// as the error. `feed` reports every fault.
    ///
    /// The frames do not depend on how the stream is cut into chunks:
    /// `lemma_frames_partition` and `lemma_frames_of_chunks`.
    pub fn process_bytes(&mut self, bytes: &[u8]) -> (result: Result<Vec<DriFrame>, DriError>)
        ensures
            final(self)@ == spec_run(old(self)@, bytes@).0,
            match result {
                Ok(frames) => spec_frame_views(frames@) == spec_frames_of(
                    spec_run(old(self)@, bytes@).1,
                ) && spec_chunk_result(spec_run(old(self)@, bytes@).1) == Ok::<
                    Seq<FrameModel>,
                    DriError,
                >(spec_frame_views(frames@)),
                Err(e) => spec_frames_of(spec_run(old(self)@, bytes@).1).len() == 0
                    && spec_first_fault(spec_run(old(self)@, bytes@).1) == Some(e),
            },
    {
        let mut frames: Vec<DriFrame> = Vec::new();
        let mut fault: Option<DriError> = None;
        let mut i: usize = 0;
        proof {
            assert(bytes@.skip(0) =~= bytes@);
            assert(spec_frame_views(frames@) =~= Seq::empty());
            assert(Seq::<FrameModel>::empty() + spec_frames_of(spec_run(self@, bytes@).1)
                =~= spec_frames_of(spec_run(self@, bytes@).1));
        }
        while i < bytes.len()
            invariant
                i <= bytes.len(),
                spec_run(old(self)@, bytes@).0 == spec_run(self@, bytes@.skip(i as int)).0,
                spec_frames_of(spec_run(old(self)@, bytes@).1) == spec_frame_views(frames@)
                    + spec_frames_of(spec_run(self@, bytes@.skip(i as int)).1),
                spec_first_fault(spec_run(old(self)@, bytes@).1) == (match fault {
                    Some(e) => Some(e),
                    None => spec_first_fault(spec_run(self@, bytes@.skip(i as int)).1),
                }),
            decreases bytes.len() - i,
        {
            let ghost before = self@;
            let ghost rest = bytes@.skip(i as int);
            let ghost collected = spec_frame_views(frames@);
            proof {
                assert(rest.first() == bytes@[i as int]);
                assert(rest.drop_first() =~= bytes@.skip(i + 1));
            }
            let ghost tail = spec_run(spec_step(before, bytes@[i as int]).0, bytes@.skip(i + 1)).1;
            match self.process_byte(bytes[i]) {
                Ok(Some(frame)) => {
                    let ghost value = frame@;
                    frames.push(frame);
                    proof {
                        let events = seq![FrameEventModel::Frame(value)] + tail;
                        assert(events.first() == FrameEventModel::Frame(value));
                        assert(events.drop_first() =~= tail);
                        assert(spec_frame_views(frames@) =~= collected + seq![value]);
                        assert(collected + (seq![value] + spec_frames_of(tail)) =~= (collected
                            + seq![value]) + spec_frames_of(tail));
                    }
                },
                Ok(None) => {
                    proof {
                        assert(Seq::<FrameEventModel>::empty() + tail =~= tail);
                    }
                },
                Err(e) => {
                    proof {
                        let events = seq![FrameEventModel::Fault(e)] + tail;
                        assert(events.first() == FrameEventModel::Fault(e));
                        assert(events.drop_first() =~= tail);
                    }
                    if fault.is_none() {
                        fault = Some(e);
                    }
                },
            }
            i = i + 1;
        }
        proof {
            assert(bytes@.skip(i as int).len() == 0);
            assert(spec_frame_views(frames@) + Seq::<FrameModel>::empty() =~= spec_frame_views(
                frames@,
            ));
        }
        if frames.len() == 0 {
            match fault {
                Some(e) => Err(e),
                None => Ok(frames),
            }
        } else {
            Ok(frames)
        }
    }

    /// Feeds a chunk of bytes and returns every event it causes, frames and
    /// faults alike, in stream order. A fault drops one frame and nothing
    /// else: the bytes after it are parsed as usual.
    pub fn feed(&mut self, bytes: &[u8]) -> (events: Vec<FrameEvent>)
        ensures
            final(self)@ == spec_run(old(self)@, bytes@).0,
            spec_event_views(events@) == spec_run(old(self)@, bytes@).1,
    {
        let mut events: Vec<FrameEvent> = Vec::new();
        let mut i: usize = 0;
        proof {
            assert(bytes@.skip(0) =~= bytes@);
            assert(spec_event_views(events@) =~= Seq::empty());
            assert(Seq::<FrameEventModel>::empty() + spec_run(self@, bytes@).1 =~= spec_run(
                self@,
                bytes@,
            ).1);
        }
        while i < bytes.len()
            invariant
                i <= bytes.len(),
                spec_run(old(self)@, bytes@).0 == spec_run(self@, bytes@.skip(i as int)).0,
                spec_run(old(self)@, bytes@).1 == spec_event_views(events@) + spec_run(
                    self@,
                    bytes@.skip(i as int),
                ).1,
            decreases bytes.len() - i,
        {
            let ghost before = self@;
            let ghost rest = bytes@.skip(i as int);
            let ghost collected = spec_event_views(events@);
            proof {
                assert(rest.first() == bytes@[i as int]);
                assert(rest.drop_first() =~= bytes@.skip(i + 1));
            }
            let ghost tail = spec_run(spec_step(before, bytes@[i as int]).0, bytes@.skip(i + 1)).1;
            match self.process_byte(bytes[i]) {
                Ok(Some(frame)) => {
                    let ghost value = FrameEventModel::Frame(frame@);
                    events.push(FrameEvent::Frame(frame));
                    proof {
                        assert(spec_event_views(events@) =~= collected + seq![value]);
                        assert(collected + (seq![value] + tail) =~= (collected + seq![value])
                            + tail);
                    }
                },
                Ok(None) => {
                    proof {
                        assert(collected + (Seq::<FrameEventModel>::empty() + tail) =~= collected
                            + tail);
                    }
                },
                Err(e) => {
                    let ghost value = FrameEventModel::Fault(e);
                    events.push(FrameEvent::Fault(e));
                    proof {
                        assert(spec_event_views(events@) =~= collected + seq![value]);
                        assert(collected + (seq![value] + tail) =~= (collected + seq![value])
                            + tail);
                    }
                },
            }
            i = i + 1;
        }
        proof {
            assert(bytes@.skip(i as int).len() == 0);
            assert(spec_event_views(events@) + Seq::<FrameEventModel>::empty()
                =~= spec_event_views(events@));
        }
        events
    }

    /// Closes the frame that is being collected.
    fn finalize_frame(&mut self) -> (result: Result<Option<DriFrame>, DriError>)
        ensures
            final(self)@ == spec_idle(),
            spec_reports(result, spec_close(old(self).buffer@)),
            result matches Ok(Some(frame)) ==> frame.spec_validate(),
    {
        self.state = ParserState::WaitingForStart;
        if self.buffer.len() == 0 {
            proof {
                assert(self.buffer@ =~= Seq::<u8>::empty());
            }
            return Ok(None);
        }
        if self.buffer.len() < 2 {
            self.buffer.clear();
            return Err(DriError::IncompleteFrame);
        }
        let ghost collected = self.buffer@;
        let checksum = self.buffer.pop().unwrap();
        let mut data: Vec<u8> = Vec::new();
        core::mem::swap(&mut data, &mut self.buffer);
        proof {
            assert(data@ =~= collected.drop_last());
        }
        let frame = DriFrame::new(data, checksum);
        if !frame.validate() {
            return Err(DriError::ChecksumError);
        }
        Ok(Some(frame))
    }

    /// Number of bytes collected for the frame in progress.
    pub fn buffer_size(&self) -> (size: usize)
        ensures
            size == self@.buffer.len(),
    {
        self.buffer.len()
    }

    /// Whether the parser is between frames.
    pub fn is_idle(&self) -> (idle: bool)
        ensures
            idle == (self@.state == ParserState::WaitingForStart),
    {
        match self.state {
            ParserState::WaitingForStart => true,
            _ => false,
        }
    }
}

impl Default for FrameParser {
    fn default() -> (parser: Self)
        ensures
            parser@ == spec_idle(),
    {
        Self::new()
    }
}

/// Stuffing distributes over appending a byte.
pub proof fn lemma_stuff_push(data: Seq<u8>, byte: u8)
    ensures
        spec_stuff(data.push(byte)) == spec_stuff(data) + spec_stuff_byte(byte),
    decreases data.len(),
{
    if data.len() == 0 {
        assert(data.push(byte).drop_first() =~= Seq::<u8>::empty());
        assert(data.push(byte).first() == byte);
        assert(spec_stuff(data.push(byte).drop_first()) =~= Seq::<u8>::empty());
        assert(spec_stuff(data.push(byte)) =~= spec_stuff_byte(byte) + Seq::<u8>::empty());
        assert(spec_stuff(data) + spec_stuff_byte(byte) =~= spec_stuff_byte(byte));
    } else {
        lemma_stuff_push(data.drop_first(), byte);
        assert(data.push(byte).drop_first() =~= data.drop_first().push(byte));
        assert(data.push(byte).first() == data.first());
        assert(spec_stuff_byte(data.first()) + (spec_stuff(data.drop_first()) + spec_stuff_byte(
            byte,
        )) =~= (spec_stuff_byte(data.first()) + spec_stuff(data.drop_first())) + spec_stuff_byte(
            byte,
        ));
    }
}

/// Escapes the delimiter and the escape byte for transmission.
pub fn stuff_bytes(data: &[u8]) -> (stuffed: Vec<u8>)
    ensures
        stuffed@ == spec_stuff(data@),
{
    let mut result: Vec<u8> = Vec::new();
    let mut i: usize = 0;
    while i < data.len()
        invariant
            i <= data.len(),
            result@ == spec_stuff(data@.take(i as int)),
        decreases data.len() - i,
    {
        let byte = data[i];
        proof {
            lemma_stuff_push(data@.take(i as int), byte);
            assert(data@.take(i + 1) =~= data@.take(i as int).push(byte));
        }
        if byte == FRAME_CHAR || byte == CTRL_CHAR {
            let ghost before = result@;
            result.push(CTRL_CHAR);
            result.push(byte & !BIT5);
            proof {
                assert(result@ =~= before + seq![CTRL_CHAR, byte & !BIT5]);
            }
        } else {
            let ghost before = result@;
            result.push(byte);
            proof {
                assert(result@ =~= before + seq![byte]);
            }
        }
        i = i + 1;
    }
    proof {
        assert(data@.take(i as int) =~= data@);
    }
    result
}

/// Wraps a payload for transmission: delimiter, the stuffed payload and its
/// checksum, delimiter.
pub fn create_frame(data: &[u8]) -> (frame: Vec<u8>)
    ensures
        frame@ == spec_frame(data@),
{
    let checksum = calculate_checksum(data);
    let mut payload: Vec<u8> = Vec::new();
    payload.extend_from_slice(data);
    payload.push(checksum);
    let stuffed = stuff_bytes(payload.as_slice());
    let mut frame: Vec<u8> = Vec::new();
    frame.push(FRAME_CHAR);
    frame.extend_from_slice(stuffed.as_slice());
    frame.push(FRAME_CHAR);
    proof {
        assert(payload@ =~= data@.push(checksum));
        assert(frame@ =~= seq![FRAME_CHAR] + stuffed@ + seq![FRAME_CHAR]);
    }
    frame
}

/// Running the parser over two byte sequences joined is running it over the
/// first and then, from the state reached, over the second: the events are
/// those of the first run followed by those of the second.
pub proof fn lemma_run_concat(m: ParserModel, a: Seq<u8>, b: Seq<u8>)
    ensures
        spec_run(m, a + b).0 == spec_run(spec_run(m, a).0, b).0,
        spec_run(m, a + b).1 == spec_run(m, a).1 + spec_run(spec_run(m, a).0, b).1,
    decreases a.len(),
{
    if a.len() == 0 {
        assert(a + b =~= b);
        assert(Seq::<FrameEventModel>::empty() + spec_run(m, b).1 =~= spec_run(m, b).1);
    } else {
        let (next, event) = spec_step(m, a.first());
        lemma_run_concat(next, a.drop_first(), b);
        assert((a + b).first() == a.first());
        assert((a + b).drop_first() =~= a.drop_first() + b);
        let mid = spec_run(next, a.drop_first());
        assert(spec_event_seq(event) + (mid.1 + spec_run(mid.0, b).1) =~= (spec_event_seq(event)
            + mid.1) + spec_run(mid.0, b).1);
    }
}

/// However a byte stream is cut into chunks, feeding the chunks one after the
/// other leaves the parser in the same state and yields the same events in
/// the same order as feeding the whole stream at once. Feeding byte by byte
/// is the case of chunks of length one.
pub proof fn lemma_run_chunks(m: ParserModel, chunks: Seq<Seq<u8>>)
    ensures
        spec_run_chunks(m, chunks) == spec_run(m, spec_concat(chunks)),
    decreases chunks.len(),
{
    if chunks.len() > 0 {
        let (next, head) = spec_run(m, chunks.first());
        lemma_run_chunks(next, chunks.drop_first());
        lemma_run_concat(m, chunks.first(), spec_concat(chunks.drop_first()));
    }
}

/// Two ways of cutting the same byte stream into chunks give the same events.
pub proof fn lemma_partition_independent(m: ParserModel, first: Seq<Seq<u8>>, second: Seq<Seq<u8>>)
    requires
        spec_concat(first) == spec_concat(second),
    ensures
        spec_run_chunks(m, first) == spec_run_chunks(m, second),
{
    lemma_run_chunks(m, first);
    lemma_run_chunks(m, second);
}

/// Every frame the parser emits carries the checksum of its payload: the sum
/// of the payload bytes modulo 256.
pub proof fn lemma_emitted_frames_valid(m: ParserModel, bytes: Seq<u8>)
    ensures
        forall|i: int|
            0 <= i < spec_run(m, bytes).1.len() ==> (#[trigger] spec_run(m, bytes).1[i] matches FrameEventModel::Frame(
                f,
            ) ==> f.checksum == spec_checksum(f.data)),
    decreases bytes.len(),
{
    if bytes.len() > 0 {
        let (next, event) = spec_step(m, bytes.first());
        lemma_emitted_frames_valid(next, bytes.drop_first());
    }
}

/// The frames among two sequences of events joined are the frames of the
/// first followed by the frames of the second.
pub proof fn lemma_frames_of_concat(a: Seq<FrameEventModel>, b: Seq<FrameEventModel>)
    ensures
        spec_frames_of(a + b) == spec_frames_of(a) + spec_frames_of(b),
    decreases a.len(),
{
    if a.len() == 0 {
        assert(a + b =~= b);
        assert(Seq::<FrameModel>::empty() + spec_frames_of(b) =~= spec_frames_of(b));
    } else {
        lemma_frames_of_concat(a.drop_first(), b);
        assert((a + b).first() == a.first());
        assert((a + b).drop_first() =~= a.drop_first() + b);
        match a.first() {
            FrameEventModel::Frame(f) => {
                assert(seq![f] + (spec_frames_of(a.drop_first()) + spec_frames_of(b)) =~= (seq![f]
                    + spec_frames_of(a.drop_first())) + spec_frames_of(b));
            },
            FrameEventModel::Fault(_) => {},
        }
    }
}

/// Wherever a stream is cut in two, the frames of the whole are the frames
/// of the first part followed by the frames that the second part gives to
/// the parser as the first part left it. A frame that is dropped, in either
/// part, takes no other frame with it.
pub proof fn lemma_frames_partition(m: ParserModel, a: Seq<u8>, b: Seq<u8>)
    ensures
        spec_frames_of(spec_run(m, a + b).1) == spec_frames_of(spec_run(m, a).1) + spec_frames_of(
            spec_run(spec_run(m, a).0, b).1,
        ),
{
    lemma_run_concat(m, a, b);
    lemma_frames_of_concat(spec_run(m, a).1, spec_run(spec_run(m, a).0, b).1);
}

/// However a stream is cut into chunks, down to single bytes, feeding the
/// chunks one after the other gives the frames of the whole stream, in the
/// same order.
pub proof fn lemma_frames_of_chunks(m: ParserModel, chunks: Seq<Seq<u8>>)
    ensures
        spec_frames_of_chunks(m, chunks) == spec_frames_of(spec_run(m, spec_concat(chunks)).1),
    decreases chunks.len(),
{
    if chunks.len() > 0 {
        lemma_frames_of_chunks(spec_run(m, chunks.first()).0, chunks.drop_first());
        lemma_frames_partition(m, chunks.first(), spec_concat(chunks.drop_first()));
    }
}

/// Where no event of a sequence is a fault, there is no first fault, and the
/// other way round.
pub proof fn lemma_first_fault(events: Seq<FrameEventModel>)
    ensures
        spec_first_fault(events) is None <==> spec_fault_free(events),
    decreases events.len(),
{
    if events.len() > 0 {
        lemma_first_fault(events.drop_first());
        if spec_fault_free(events.drop_first()) && events.first() is Frame {
            assert forall|i: int| 0 <= i < events.len() implies (#[trigger] events[i]) is Frame by {
                if i > 0 {
                    assert(events[i] == events.drop_first()[i - 1]);
                }
            }
        }
        if spec_fault_free(events) {
            assert(events[0] is Frame);
            assert forall|i: int| 0 <= i < events.drop_first().len() implies (
            #[trigger] events.drop_first()[i]) is Frame by {
                assert(events.drop_first()[i] == events[i + 1]);
            }
        }
    }
}

/// The parser run over a single byte is one step.
proof fn lemma_run_one(m: ParserModel, byte: u8)
    ensures
        spec_run(m, seq![byte]) == (spec_step(m, byte).0, spec_event_seq(spec_step(m, byte).1)),
{
    let bytes = seq![byte];
    assert(bytes.first() == byte);
    assert(bytes.drop_first() =~= Seq::<u8>::empty());
    let (next, event) = spec_step(m, byte);
    assert(spec_run(next, bytes.drop_first()) == (next, Seq::<FrameEventModel>::empty()));
    assert(spec_event_seq(event) + Seq::<FrameEventModel>::empty() =~= spec_event_seq(event));
}

/// Inside a frame, the stuffed form of a byte adds exactly that byte to the
/// bytes collected and causes no event.
proof fn lemma_run_stuffed_byte(buffer: Seq<u8>, byte: u8)
    ensures
        spec_run(ParserModel { state: ParserState::InFrame, buffer }, spec_stuff_byte(byte)) == (
            ParserModel { state: ParserState::InFrame, buffer: buffer.push(byte) },
            Seq::<FrameEventModel>::empty(),
        ),
{
    let m = ParserModel { state: ParserState::InFrame, buffer };
    if byte == FRAME_CHAR || byte == CTRL_CHAR {
        let low = byte & !BIT5;
        assert(low | BIT5 == byte) by (bit_vector)
            requires
                low == byte & !0x20u8,
                byte == 0x7Eu8 || byte == 0x7Du8,
                BIT5 == 0x20u8,
        ;
        let escaped = ParserModel { state: ParserState::NeedUnstuff, buffer };
        assert(spec_stuff_byte(byte) =~= seq![CTRL_CHAR] + seq![low]);
        lemma_run_concat(m, seq![CTRL_CHAR], seq![low]);
        lemma_run_one(m, CTRL_CHAR);
        lemma_run_one(escaped, low);
        assert(Seq::<FrameEventModel>::empty() + Seq::<FrameEventModel>::empty()
            =~= Seq::<FrameEventModel>::empty());
    } else {
        lemma_run_one(m, byte);
    }
}

/// Inside a frame, stuffed data adds exactly the data to the bytes collected
/// and causes no event.
pub proof fn lemma_run_stuffed(buffer: Seq<u8>, data: Seq<u8>)
    ensures
        spec_run(ParserModel { state: ParserState::InFrame, buffer }, spec_stuff(data)) == (
            ParserModel { state: ParserState::InFrame, buffer: buffer + data },
            Seq::<FrameEventModel>::empty(),
        ),
    decreases data.len(),
{
    let m = ParserModel { state: ParserState::InFrame, buffer };
    if data.len() == 0 {
        assert(buffer + data =~= buffer);
    } else {
        let head = data.first();
        let rest = data.drop_first();
        lemma_run_stuffed_byte(buffer, head);
        lemma_run_stuffed(buffer.push(head), rest);
        lemma_run_concat(m, spec_stuff_byte(head), spec_stuff(rest));
        assert(buffer.push(head) + rest =~= buffer + data);
        assert(Seq::<FrameEventModel>::empty() + Seq::<FrameEventModel>::empty()
            =~= Seq::<FrameEventModel>::empty());
    }
}

/// A parser that waits for a frame and is fed the wire form of a payload of
/// at least one byte emits exactly one event, the frame of that payload with
/// its checksum, and waits for the next frame afterwards. An empty payload is
/// left out: on the wire it is a frame of the checksum alone, which the parser
/// drops as incomplete.
pub proof fn lemma_frame_round_trip(m: ParserModel, payload: Seq<u8>)
    requires
        m.state == ParserState::WaitingForStart,
        payload.len() >= 1,
    ensures
        spec_run(m, spec_frame(payload)) == (
            spec_idle(),
            seq![
                FrameEventModel::Frame(
                    FrameModel { data: payload, checksum: spec_checksum(payload) },
                ),
            ],
        ),
{
    let body = payload.push(spec_checksum(payload));
    let open = ParserModel { state: ParserState::InFrame, buffer: Seq::<u8>::empty() };
    let full = ParserModel { state: ParserState::InFrame, buffer: body };
    let none = Seq::<FrameEventModel>::empty();
    let frame = FrameEventModel::Frame(
        FrameModel { data: payload, checksum: spec_checksum(payload) },
    );
    lemma_run_one(m, FRAME_CHAR);
    lemma_run_stuffed(Seq::<u8>::empty(), body);
    assert(Seq::<u8>::empty() + body =~= body);
    lemma_run_one(full, FRAME_CHAR);
    assert(body.drop_last() =~= payload);
    assert(body.last() == spec_checksum(payload));
    assert(spec_close(body) == Some(frame));
    lemma_run_concat(m, seq![FRAME_CHAR], spec_stuff(body));
    lemma_run_concat(m, seq![FRAME_CHAR] + spec_stuff(body), seq![FRAME_CHAR]);
    assert(none + none =~= none);
    assert(none + seq![frame] =~= seq![frame]);
}

} // verus!
