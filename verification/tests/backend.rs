//! Tests of the transport backend's state machine: the not-connected
//! contract, target resolution, chunk processing, and the reader's
//! decisions.

use m8link::slip::slip_encode;
use m8link::CommandIn;
use m8link::CommandOut;
use m8link::Error;
use m8link::ReadEvent;
use m8link::ReaderAction;
use m8link::SerialBackend;
use m8link::reader_step;

#[test]
fn a_new_backend_is_not_connected() {
    let backend = SerialBackend::new();
    assert!(!backend.is_connected());
}

#[test]
fn poll_on_a_disconnected_backend_is_the_not_connected_error() {
    let mut backend = SerialBackend::new();
    match backend.poll() {
        Err(Error::DeviceNotConnected(_)) => {}
        Err(other) => panic!("expected the not-connected error, got {:?}", other),
        Ok(_) => panic!("poll on a disconnected backend must never return a command list"),
    }
    // Polling again keeps reporting the same condition.
    assert!(matches!(backend.poll(), Err(Error::DeviceNotConnected(_))));
}

#[test]
fn send_command_on_a_disconnected_backend_is_the_not_connected_error() {
    let mut backend = SerialBackend::new();
    let r = backend.send_command(CommandOut::Ping);
    assert!(matches!(r, Err(Error::DeviceNotConnected(_))));
}

#[test]
fn finish_handshake_on_a_disconnected_backend_is_the_not_connected_error() {
    let mut backend = SerialBackend::new();
    assert!(matches!(
        backend.finish_handshake(),
        Err(Error::DeviceNotConnected(_))
    ));
}

#[test]
fn disconnect_without_a_connection_fails() {
    let mut backend = SerialBackend::new();
    assert!(matches!(
        backend.disconnect(),
        Err(Error::DeviceConnectionError(_))
    ));
    assert!(!backend.is_connected());
}

#[test]
fn connect_without_a_device_fails_and_leaves_the_backend_unconnected() {
    let mut backend = SerialBackend::new();
    // No device is attached in this environment, so the connection attempt
    // must fail, and a failed connect leaves the backend reusable.
    assert!(backend.connect().is_err());
    assert!(!backend.is_connected());
    assert!(matches!(backend.poll(), Err(Error::DeviceNotConnected(_))));
}

#[test]
fn set_preferred_path_accepts_none_and_rejects_a_missing_port() {
    let mut backend = SerialBackend::new();
    assert!(backend.set_preferred_path(None, true).is_ok());
    let r = backend.set_preferred_path(Some("/definitely/not/a/port"), true);
    assert!(matches!(r, Err(Error::DeviceNotFound)));
}

#[test]
fn resolve_target_prefers_the_preferred_path() {
    let preferred = Some(String::from("/dev/preferred"));
    let candidates = vec![String::from("/dev/first"), String::from("/dev/second")];
    let r = SerialBackend::resolve_target(&preferred, &candidates).unwrap();
    assert_eq!(r, "/dev/preferred");
}

#[test]
fn resolve_target_falls_back_to_the_first_candidate() {
    let candidates = vec![String::from("/dev/first"), String::from("/dev/second")];
    let r = SerialBackend::resolve_target(&None, &candidates).unwrap();
    assert_eq!(r, "/dev/first");
}

#[test]
fn resolve_target_with_nothing_to_choose_is_the_not_found_condition() {
    let r = SerialBackend::resolve_target(&None, &Vec::new());
    assert!(matches!(r, Err(Error::DeviceNotFound)));
}

#[test]
fn process_chunk_decodes_framed_commands_in_arrival_order() {
    let mut backend = SerialBackend::new();
    let mut wire = slip_encode(&[0xFB, 0b0001_0000, 0x00]);
    wire.extend(slip_encode(&[0xFC, 1, 2, 3]));
    let commands = backend.process_chunk(&wire, wire.len()).unwrap();
    assert_eq!(commands.len(), 2);
    match &commands[0] {
        CommandIn::GetKeyState { keystate } => assert_eq!(keystate.to_byte(), 0b0001_0000),
        other => panic!("expected a key-state command, got {:?}", other),
    }
    assert!(matches!(&commands[1], CommandIn::DrawOsc { .. }));
}

#[test]
fn process_chunk_keeps_state_across_chunks() {
    // A key-state frame split at the escape: both chunks together decode
    // exactly one command, just as one chunk would.
    let mut backend = SerialBackend::new();
    let first = [0xFB, 0xDB];
    let commands = backend.process_chunk(&first, first.len()).unwrap();
    assert!(commands.is_empty());
    let second = [0xDC, 0x00, 0xC0];
    let commands = backend.process_chunk(&second, second.len()).unwrap();
    assert_eq!(commands.len(), 1);
    match &commands[0] {
        CommandIn::GetKeyState { keystate } => assert_eq!(keystate.to_byte(), 0xC0),
        other => panic!("expected a key-state command, got {:?}", other),
    }
}

#[test]
fn process_chunk_drops_unparseable_frames_and_goes_on() {
    let mut backend = SerialBackend::new();
    let mut wire = slip_encode(&[0x41, 0x42]);
    wire.extend(slip_encode(&[0xFB, 0x00, 0x00]));
    let commands = backend.process_chunk(&wire, wire.len()).unwrap();
    assert_eq!(commands.len(), 1);
}

#[test]
fn process_chunk_respects_the_valid_length_marker() {
    let mut backend = SerialBackend::new();
    let wire = slip_encode(&[0xFB, 0x01, 0x00]);
    let mut padded = wire.clone();
    padded.extend([0xFF, 0xFF]);
    // Only the first `wire.len()` bytes are valid; the padding is ignored.
    let commands = backend.process_chunk(&padded, wire.len()).unwrap();
    assert_eq!(commands.len(), 1);
}

#[test]
fn process_chunk_surfaces_a_frame_overflow() {
    let mut backend = SerialBackend::new();
    let bytes = vec![0x01u8; 1100];
    match backend.process_chunk(&bytes, bytes.len()) {
        Err(Error::BufferOverflow) => {}
        other => panic!("expected a buffer overflow, got ok={}", other.is_ok()),
    }
}

#[test]
fn reader_decisions_match_the_loop_policy() {
    assert!(matches!(
        reader_step(false, ReadEvent::Data(4)),
        ReaderAction::Stop
    ));
    match reader_step(true, ReadEvent::Data(17)) {
        ReaderAction::Forward(n) => assert_eq!(n, 17),
        _ => panic!("data must be forwarded"),
    }
    assert!(matches!(
        reader_step(true, ReadEvent::TimedOut),
        ReaderAction::Retry
    ));
    assert!(matches!(
        reader_step(true, ReadEvent::Interrupted),
        ReaderAction::Retry
    ));
    match reader_step(true, ReadEvent::Failed(String::from("gone"))) {
        ReaderAction::Fail(msg) => assert_eq!(msg, "gone"),
        _ => panic!("an unexpected failure must be fatal"),
    }
}
