//! Tests of the SLIP framer: round trips, escape handling across chunk
//! boundaries, empty frames, violations and overflow.

use m8link::slip::slip_encode;
use m8link::slip::FeedOutcome;
use m8link::Error;
use m8link::SlipDecoder;

fn decode_all(decoder: &mut SlipDecoder, bytes: &[u8]) -> Vec<Vec<u8>> {
    decoder
        .feed_chunk(bytes, bytes.len())
        .expect("no overflow expected in this test")
}

#[test]
fn encoder_escapes_end_and_esc_and_terminates() {
    assert_eq!(slip_encode(&[]), vec![0xC0]);
    assert_eq!(slip_encode(&[0x01, 0x02]), vec![0x01, 0x02, 0xC0]);
    assert_eq!(slip_encode(&[0xC0]), vec![0xDB, 0xDC, 0xC0]);
    assert_eq!(slip_encode(&[0xDB]), vec![0xDB, 0xDD, 0xC0]);
}

#[test]
fn round_trip_reproduces_payload_with_literal_delimiters() {
    // A payload holding literal END and ESC bytes comes back exactly.
    let payload = vec![0x00, 0xC0, 0x41, 0xDB, 0xC0, 0xDC, 0xDD, 0xFF];
    let wire = slip_encode(&payload);
    let mut decoder = SlipDecoder::new();
    let frames = decode_all(&mut decoder, &wire);
    assert_eq!(frames, vec![payload]);
}

#[test]
fn round_trip_of_the_largest_payload() {
    let payload: Vec<u8> = (0..1024).map(|i| (i % 256) as u8).collect();
    let wire = slip_encode(&payload);
    let mut decoder = SlipDecoder::new();
    let frames = decode_all(&mut decoder, &wire);
    assert_eq!(frames, vec![payload]);
}

#[test]
fn escape_state_persists_across_chunk_boundaries() {
    // Delivering the escape introducer in one chunk and its second byte in
    // the next yields the same literal END as delivering both at once.
    let mut split = SlipDecoder::new();
    let first = [0xDB];
    let second = [0xDC, 0xC0];
    assert!(decode_all(&mut split, &first).is_empty());
    let frames_split = decode_all(&mut split, &second);

    let mut whole = SlipDecoder::new();
    let frames_whole = decode_all(&mut whole, &[0xDB, 0xDC, 0xC0]);

    assert_eq!(frames_split, vec![vec![0xC0]]);
    assert_eq!(frames_split, frames_whole);
}

#[test]
fn partial_frames_persist_across_chunk_boundaries() {
    let mut decoder = SlipDecoder::new();
    assert!(decode_all(&mut decoder, &[0x10, 0x20]).is_empty());
    assert!(decode_all(&mut decoder, &[0x30]).is_empty());
    let frames = decode_all(&mut decoder, &[0xC0]);
    assert_eq!(frames, vec![vec![0x10, 0x20, 0x30]]);
}

#[test]
fn empty_frames_between_delimiters_are_skipped() {
    let mut decoder = SlipDecoder::new();
    let frames = decode_all(&mut decoder, &[0xC0, 0xC0, 0x01, 0xC0, 0xC0]);
    assert_eq!(frames, vec![vec![0x01]]);
}

#[test]
fn an_invalid_escape_aborts_only_the_frame_in_progress() {
    // 0x41 accumulates; ESC then 0x42 is a violation dropping that frame;
    // the following frames still come through.
    let mut decoder = SlipDecoder::new();
    let frames = decode_all(&mut decoder, &[0x41, 0xDB, 0x42, 0x43, 0xC0, 0x44, 0xC0]);
    assert_eq!(frames, vec![vec![0x43], vec![0x44]]);
}

#[test]
fn feed_byte_reports_each_outcome() {
    let mut decoder = SlipDecoder::new();
    assert!(matches!(decoder.feed_byte(0x41), FeedOutcome::Pending));
    assert!(matches!(decoder.feed_byte(0xDB), FeedOutcome::Pending));
    assert!(matches!(decoder.feed_byte(0x00), FeedOutcome::BadEscape));
    assert!(matches!(decoder.feed_byte(0x55), FeedOutcome::Pending));
    match decoder.feed_byte(0xC0) {
        FeedOutcome::Frame(frame) => assert_eq!(frame, vec![0x55]),
        other => panic!("expected a frame, got {:?}", outcome_name(&other)),
    }
}

fn outcome_name(outcome: &FeedOutcome) -> &'static str {
    match outcome {
        FeedOutcome::Pending => "pending",
        FeedOutcome::Frame(_) => "frame",
        FeedOutcome::BadEscape => "bad escape",
        FeedOutcome::Overflow => "overflow",
    }
}

#[test]
fn a_frame_past_the_accumulator_capacity_is_a_buffer_overflow() {
    let mut decoder = SlipDecoder::new();
    let bytes = vec![0x01u8; 1025];
    match decoder.feed_chunk(&bytes, bytes.len()) {
        Err(Error::BufferOverflow) => {}
        other => panic!("expected a buffer overflow, got {:?}", other.is_ok()),
    }
    // The oversized frame was dropped; the decoder keeps working.
    let frames = decode_all(&mut decoder, &[0x07, 0xC0]);
    assert_eq!(frames, vec![vec![0x07]]);
}

#[test]
fn the_accumulator_holds_its_capacity_and_not_one_byte_more() {
    let mut buffer = m8link::ByteBuffer::new();
    assert_eq!(buffer.as_slice(), &[] as &[u8]);
    for i in 0..1024u32 {
        assert!(buffer.push((i % 251) as u8).is_ok());
    }
    assert_eq!(buffer.len(), 1024);
    match buffer.push(0xAA) {
        Err(Error::BufferOverflow) => {}
        other => panic!("expected a buffer overflow, got ok={}", other.is_ok()),
    }
    assert_eq!(buffer.len(), 1024);
    assert_eq!(buffer.as_slice()[0], 0);
    assert_eq!(buffer.as_slice()[250], 250);
    buffer.clear();
    assert_eq!(buffer.len(), 0);
    assert!(buffer.push(7).is_ok());
    assert_eq!(buffer.as_slice(), &[7u8] as &[u8]);
}

#[test]
fn reset_drops_partial_frame_and_escape_state() {
    let mut decoder = SlipDecoder::new();
    assert!(decode_all(&mut decoder, &[0x01, 0x02, 0xDB]).is_empty());
    decoder.reset();
    // Were the escape flag still set, 0xDC would decode as a literal END.
    let frames = decode_all(&mut decoder, &[0xDC, 0xC0]);
    assert_eq!(frames, vec![vec![0xDC]]);
}
