use ge_dri_prototype::constants::{CTRL_CHAR, FRAME_CHAR};
use ge_dri_prototype::protocol::checksum::calculate_checksum;
use ge_dri_prototype::protocol::framing::{create_frame, stuff_bytes, FrameEvent, FrameParser};
use ge_dri_prototype::protocol::DriFrame;
use ge_dri_prototype::DriError;

#[test]
fn test_simple_frame() {
    let mut parser = FrameParser::new();

    let bytes = vec![0x7E, 0x01, 0x02, 0x03, 0x06, 0x7E];

    let frames = parser.process_bytes(&bytes).unwrap();
    assert_eq!(frames.len(), 1);
    assert_eq!(frames[0].data, vec![0x01, 0x02, 0x03]);
    assert_eq!(frames[0].checksum, 0x06);
    assert!(frames[0].validate());
}

#[test]
fn test_byte_stuffing() {
    let mut parser = FrameParser::new();

    let data = vec![0x7E];
    let checksum = calculate_checksum(&data);

    let bytes = vec![0x7E, 0x7D, 0x5E, checksum, 0x7E];

    // The checksum of this payload is the delimiter itself. Sent as it is, it
    // closes the frame after a single byte, and the frame is dropped.
    assert_eq!(checksum, 0x7E);
    let result = parser.process_bytes(&bytes);
    assert!(matches!(result, Err(DriError::IncompleteFrame)));
}

#[test]
fn byte_stuffing_with_escaped_checksum() {
    let mut parser = FrameParser::new();

    let data = vec![0x7E];
    let checksum = calculate_checksum(&data);

    let bytes = vec![0x7E, 0x7D, 0x5E, 0x7D, checksum & !0x20, 0x7E];

    let frames = parser.process_bytes(&bytes).unwrap();
    assert_eq!(frames.len(), 1);
    assert_eq!(frames[0].data, vec![0x7E]);
}

#[test]
fn test_invalid_checksum() {
    let mut parser = FrameParser::new();

    let bytes = vec![0x7E, 0x01, 0x02, 0x03, 0xFF, 0x7E];

    let result = parser.process_bytes(&bytes);
    assert!(result.is_err());
    assert!(matches!(result.unwrap_err(), DriError::ChecksumError));
}

#[test]
fn test_multiple_frames() {
    let mut parser = FrameParser::new();

    let bytes = vec![
        0x7E, 0x01, 0x01, 0x7E, // first frame
        0x7E, 0x02, 0x02, 0x7E, // second frame
    ];

    let frames = parser.process_bytes(&bytes).unwrap();
    assert_eq!(frames.len(), 2);
    assert_eq!(frames[0].data, vec![0x01]);
    assert_eq!(frames[1].data, vec![0x02]);
}

#[test]
fn test_create_frame() {
    let data = vec![0x01, 0x02, 0x03];
    let frame = create_frame(&data);

    assert_eq!(frame[0], FRAME_CHAR);
    assert_eq!(frame[frame.len() - 1], FRAME_CHAR);

    let mut parser = FrameParser::new();
    let parsed = parser.process_bytes(&frame).unwrap();
    assert_eq!(parsed.len(), 1);
    assert_eq!(parsed[0].data, data);
}

#[test]
fn checksum_mismatch_leaves_the_parser_idle() {
    let mut parser = FrameParser::new();
    let events = parser.feed(&[0x7E, 0x01, 0x02, 0x03, 0xFF, 0x7E]);
    assert_eq!(events.len(), 1);
    assert!(matches!(events[0], FrameEvent::Fault(DriError::ChecksumError)));
    assert!(parser.is_idle());
    assert_eq!(parser.buffer_size(), 0);
}

#[test]
fn stuffing_round_trip_of_delimiter_and_escape() {
    let payload = vec![0x7E, 0x7D, 0x01];
    let frame = create_frame(&payload);
    assert_eq!(frame, vec![0x7E, 0x7D, 0x5E, 0x7D, 0x5D, 0x01, 0xFC, 0x7E]);

    let mut parser = FrameParser::new();
    let frames = parser.process_bytes(&frame).unwrap();
    assert_eq!(frames.len(), 1);
    assert_eq!(frames[0].data, payload);
    assert_eq!(frames[0].checksum, 0xFC);
}

#[test]
fn stuff_bytes_escapes_only_two_bytes() {
    assert_eq!(stuff_bytes(&[0x7E]), vec![0x7D, 0x5E]);
    assert_eq!(stuff_bytes(&[0x7D]), vec![0x7D, 0x5D]);
    assert_eq!(stuff_bytes(&[0x5E, 0x5D, 0x7C, 0x7F, 0x00, 0xFF]), vec![0x5E, 0x5D, 0x7C, 0x7F, 0x00, 0xFF]);
    assert_eq!(stuff_bytes(&[]), Vec::<u8>::new());
}

#[test]
fn checksum_that_needs_stuffing_round_trips() {
    // The payload sums to 0x7E, so the checksum itself is escaped.
    let payload = vec![0x70, 0x0E];
    let frame = create_frame(&payload);
    assert_eq!(frame, vec![0x7E, 0x70, 0x0E, 0x7D, 0x5E, 0x7E]);
    let mut parser = FrameParser::new();
    let frames = parser.process_bytes(&frame).unwrap();
    assert_eq!(frames.len(), 1);
    assert_eq!(frames[0].data, payload);
    assert_eq!(frames[0].checksum, 0x7E);
}

#[test]
fn every_emitted_frame_carries_the_checksum_of_its_payload() {
    for payload in [vec![0x00u8], vec![0xFF, 0xFF, 0xFF], vec![0x7E, 0x7D, 0x7E], (1..=200u8).collect()] {
        let mut parser = FrameParser::new();
        let frames = parser.process_bytes(&create_frame(&payload)).unwrap();
        assert_eq!(frames.len(), 1);
        let sum: u32 = frames[0].data.iter().map(|b| *b as u32).sum();
        assert_eq!(frames[0].checksum as u32, sum % 256);
        assert!(frames[0].validate());
    }
}

#[test]
fn single_byte_frame_is_incomplete() {
    let mut parser = FrameParser::new();
    let result = parser.process_bytes(&[0x7E, 0x42, 0x7E]);
    assert!(matches!(result, Err(DriError::IncompleteFrame)));
    assert!(parser.is_idle());
}

#[test]
fn frame_of_an_empty_payload_is_dropped_as_incomplete() {
    let frame = create_frame(&[]);
    assert_eq!(frame, vec![0x7E, 0x00, 0x7E]);
    let mut parser = FrameParser::new();
    assert!(matches!(parser.process_bytes(&frame), Err(DriError::IncompleteFrame)));
}

#[test]
fn empty_frame_yields_nothing() {
    let mut parser = FrameParser::new();
    let frames = parser.process_bytes(&[0x7E, 0x7E]).unwrap();
    assert!(frames.is_empty());
    assert!(parser.is_idle());
}

#[test]
fn bytes_outside_a_frame_are_ignored() {
    let mut parser = FrameParser::new();
    let frames = parser.process_bytes(&[0x01, 0x02, 0x7D, 0x7E, 0x05, 0x05, 0x7E, 0x09]).unwrap();
    assert_eq!(frames.len(), 1);
    assert_eq!(frames[0].data, vec![0x05]);
}

#[test]
fn process_byte_reports_each_step() {
    let mut parser = FrameParser::new();
    assert!(matches!(parser.process_byte(0x7E), Ok(None)));
    assert!(!parser.is_idle());
    assert!(matches!(parser.process_byte(0x7D), Ok(None)));
    assert_eq!(parser.buffer_size(), 0);
    assert!(matches!(parser.process_byte(0x5E), Ok(None)));
    assert_eq!(parser.buffer_size(), 1);
    assert!(matches!(parser.process_byte(0x7D), Ok(None)));
    assert!(matches!(parser.process_byte(0x5E), Ok(None)));
    assert_eq!(parser.buffer_size(), 2);
    match parser.process_byte(0x7E) {
        Ok(Some(frame)) => {
            assert_eq!(frame.data, vec![0x7E]);
            assert_eq!(frame.checksum, 0x7E);
        }
        other => panic!("unexpected result: {:?}", other),
    }
    assert!(parser.is_idle());
}

#[test]
fn escape_byte_sets_bit_five_of_the_next_byte() {
    let mut parser = FrameParser::new();
    // After the escape byte even a delimiter is data.
    let frames = parser.process_bytes(&[0x7E, 0x7D, 0x7E, 0x7D, 0x00, 0x9E, 0x7E]).unwrap();
    assert_eq!(frames.len(), 1);
    assert_eq!(frames[0].data, vec![0x7E, 0x20]);
}

#[test]
fn a_dropped_frame_takes_no_other_frame_with_it() {
    let mut parser = FrameParser::new();
    let mut bytes = vec![0x7E, 0x01, 0x01, 0x7E, 0x7E, 0x01, 0x02, 0x7E];
    bytes.extend_from_slice(&[0x7E, 0x03, 0x03, 0x7E]);
    let frames = parser.process_bytes(&bytes).unwrap();
    assert_eq!(frames.len(), 2);
    assert_eq!(frames[0].data, vec![0x01]);
    assert_eq!(frames[1].data, vec![0x03]);
    assert!(parser.is_idle());
}

#[test]
fn chunk_without_a_frame_reports_its_first_fault() {
    let mut parser = FrameParser::new();
    let bytes = [0x7E, 0x09, 0x7E, 0x7E, 0x01, 0x02, 0x7E, 0x7E, 0x05];
    assert!(matches!(parser.process_bytes(&bytes), Err(DriError::IncompleteFrame)));
    // Every byte was parsed: the parser is inside the third frame.
    assert!(!parser.is_idle());
    assert_eq!(parser.buffer_size(), 1);
    let frames = parser.process_bytes(&[0x05, 0x7E]).unwrap();
    assert_eq!(frames.len(), 1);
    assert_eq!(frames[0].data, vec![0x05]);
    let mut parser = FrameParser::new();
    assert!(matches!(
        parser.process_bytes(&[0x7E, 0x01, 0x02, 0x7E, 0x7E, 0x09, 0x7E]),
        Err(DriError::ChecksumError)
    ));
}

#[test]
fn process_bytes_gives_the_same_frames_however_the_stream_is_cut() {
    let mut stream = vec![0x7E, 0x01, 0x01, 0x7E, 0x7E, 0x05, 0x7E];
    stream.extend_from_slice(&create_frame(&[0x7E, 0x7D, 0x10]));
    stream.extend_from_slice(&[0x7E, 0x01, 0x02, 0x03, 0xFF, 0x7E]);
    stream.extend_from_slice(&create_frame(&[0x33; 20]));

    let frames_of = |parts: Vec<&[u8]>| {
        let mut parser = FrameParser::new();
        let mut frames = Vec::new();
        for part in parts {
            if let Ok(found) = parser.process_bytes(part) {
                frames.extend(found.into_iter().map(|f| (f.data, f.checksum)));
            }
        }
        frames
    };

    let whole = frames_of(vec![&stream]);
    assert_eq!(whole.len(), 3);
    assert_eq!(whole[0].0, vec![0x01]);
    assert_eq!(whole[1].0, vec![0x7E, 0x7D, 0x10]);
    assert_eq!(whole[2].0, vec![0x33; 20]);
    for cut in 0..=stream.len() {
        assert_eq!(frames_of(vec![&stream[..cut], &stream[cut..]]), whole, "cut at {}", cut);
    }
    for size in [1usize, 2, 3, 5, 8, 13] {
        assert_eq!(frames_of(stream.chunks(size).collect()), whole, "chunks of {}", size);
    }
    let mut bytewise = FrameParser::new();
    let mut frames = Vec::new();
    for byte in &stream {
        if let Ok(Some(frame)) = bytewise.process_byte(*byte) {
            frames.push((frame.data, frame.checksum));
        }
    }
    assert_eq!(frames, whole);
}

#[test]
fn feed_reports_frames_and_faults_in_stream_order() {
    let mut parser = FrameParser::new();
    let bytes = vec![0x7E, 0x01, 0x01, 0x7E, 0x7E, 0x01, 0x02, 0x7E, 0x7E, 0x09, 0x7E, 0x7E, 0x03, 0x03, 0x7E];
    let events = parser.feed(&bytes);
    assert_eq!(events.len(), 4);
    assert!(matches!(&events[0], FrameEvent::Frame(f) if f.data == vec![0x01]));
    assert!(matches!(events[1], FrameEvent::Fault(DriError::ChecksumError)));
    assert!(matches!(events[2], FrameEvent::Fault(DriError::IncompleteFrame)));
    assert!(matches!(&events[3], FrameEvent::Frame(f) if f.data == vec![0x03]));
}

fn summary(events: &[FrameEvent]) -> Vec<Result<(Vec<u8>, u8), DriError>> {
    events
        .iter()
        .map(|e| match e {
            FrameEvent::Frame(f) => Ok((f.data.clone(), f.checksum)),
            FrameEvent::Fault(e) => Err(*e),
        })
        .collect()
}

#[test]
fn any_partition_of_the_stream_gives_the_same_events() {
    let mut stream = Vec::new();
    stream.extend_from_slice(&[0x11, 0x22]);
    stream.extend_from_slice(&create_frame(&[0x7E, 0x7D, 0x01, 0x02]));
    stream.extend_from_slice(&[0x7E, 0x01, 0x02, 0x7E]);
    stream.extend_from_slice(&create_frame(&[0xAA; 40]));
    stream.extend_from_slice(&[0x7E, 0x55, 0x7E]);
    stream.extend_from_slice(&create_frame(&[0x7D, 0x7D, 0x7D]));

    let mut whole = FrameParser::new();
    let expected = summary(&whole.feed(&stream));
    assert_eq!(expected.len(), 5);

    let mut bytewise = FrameParser::new();
    let mut got = Vec::new();
    for b in &stream {
        got.extend(summary(&bytewise.feed(&[*b])));
    }
    assert_eq!(got, expected);

    for chunk in [2usize, 3, 5, 7, 13, 64] {
        let mut parser = FrameParser::new();
        let mut got = Vec::new();
        for part in stream.chunks(chunk) {
            got.extend(summary(&parser.feed(part)));
        }
        assert_eq!(got, expected, "chunk size {}", chunk);
        assert_eq!(parser.is_idle(), whole.is_idle());
    }
}

#[test]
fn reset_drops_the_frame_in_progress() {
    let mut parser = FrameParser::new();
    parser.process_bytes(&[0x7E, 0x01, 0x02]).unwrap();
    assert_eq!(parser.buffer_size(), 2);
    parser.reset();
    assert!(parser.is_idle());
    assert_eq!(parser.buffer_size(), 0);
    let frames = parser.process_bytes(&[0x03, 0x03, 0x7E]).unwrap();
    assert!(frames.is_empty());
}

#[test]
fn frame_accessors() {
    let frame = DriFrame::new(vec![0x01, 0x02, 0x03], 0x06);
    assert_eq!(frame.complete_data(), vec![0x01, 0x02, 0x03, 0x06]);
    assert!(frame.validate());
    let bad = DriFrame::new(vec![0x01, 0x02, 0x03], 0x07);
    assert!(!bad.validate());
    assert_eq!(CTRL_CHAR, 0x7D);
    let fresh = FrameParser::default();
    assert!(fresh.is_idle());
}
