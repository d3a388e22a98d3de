//! Tests of the command codec: decode layouts per tag and length, and the
//! wire encoding of outgoing commands.

use m8link::commands::firmware_string;
use m8link::Color;
use m8link::CommandIn;
use m8link::CommandOut;
use m8link::FontType;
use m8link::HardwareType;
use m8link::Key;

fn rect_fields(cmd: CommandIn) -> (u16, u16, u16, u16, Option<Color>) {
    match cmd {
        CommandIn::DrawRect { params } => {
            (params.x, params.y, params.width, params.height, params.color)
        }
        other => panic!("expected a draw-rect command, got {:?}", other),
    }
}

#[test]
fn draw_rect_full_form_decodes_every_field() {
    // x = 0x0102, y = 0x0304, w = 0x0506, h = 0x0708 (little endian), rgb.
    let frame = [0xFE, 0x02, 0x01, 0x04, 0x03, 0x06, 0x05, 0x08, 0x07, 10, 20, 30];
    let cmd = CommandIn::from_bytes(&frame).expect("12-byte draw-rect must decode");
    let (x, y, w, h, color) = rect_fields(cmd);
    assert_eq!(x, 0x0102);
    assert_eq!(y, 0x0304);
    assert_eq!(w, 0x0506);
    assert_eq!(h, 0x0708);
    assert_eq!(color, Some(Color::new(10, 20, 30)));
}

#[test]
fn draw_rect_without_color_reuses_last_color() {
    let frame = [0xFE, 0x10, 0x00, 0x20, 0x00, 0x30, 0x00, 0x40, 0x00];
    let cmd = CommandIn::from_bytes(&frame).expect("9-byte draw-rect must decode");
    let (x, y, w, h, color) = rect_fields(cmd);
    assert_eq!((x, y, w, h), (0x10, 0x20, 0x30, 0x40));
    assert_eq!(color, None);
}

#[test]
fn draw_rect_single_pixel_with_color() {
    let frame = [0xFE, 0x05, 0x00, 0x06, 0x00, 1, 2, 3];
    let cmd = CommandIn::from_bytes(&frame).expect("8-byte draw-rect must decode");
    let (x, y, w, h, color) = rect_fields(cmd);
    assert_eq!((x, y, w, h), (5, 6, 1, 1));
    assert_eq!(color, Some(Color::new(1, 2, 3)));
}

#[test]
fn draw_rect_single_pixel_without_color() {
    let frame = [0xFE, 0xFF, 0x00, 0x07, 0x00];
    let cmd = CommandIn::from_bytes(&frame).expect("5-byte draw-rect must decode");
    let (x, y, w, h, color) = rect_fields(cmd);
    assert_eq!((x, y, w, h), (0xFF, 7, 1, 1));
    assert_eq!(color, None);
}

#[test]
fn draw_rect_other_lengths_decode_to_nothing() {
    for len in [2usize, 3, 4, 6, 7, 10, 11, 13, 20] {
        let mut frame = vec![0xFEu8];
        frame.resize(len, 0);
        assert!(
            CommandIn::from_bytes(&frame).is_none(),
            "length {} must not decode",
            len
        );
    }
}

#[test]
fn draw_char_decodes_every_field() {
    let frame = [0xFD, b'A', 0x0A, 0x00, 0x14, 0x00, 1, 2, 3, 4, 5, 6];
    match CommandIn::from_bytes(&frame).expect("12-byte draw-char must decode") {
        CommandIn::DrawChar { params } => {
            assert_eq!(params.c, 'A');
            assert_eq!(params.x, 10);
            assert_eq!(params.y, 20);
            assert_eq!(params.color_fg, Color::new(1, 2, 3));
            assert_eq!(params.color_bg, Color::new(4, 5, 6));
        }
        other => panic!("expected a draw-char command, got {:?}", other),
    }
}

#[test]
fn draw_char_wrong_length_decodes_to_nothing() {
    let frame = [0xFD, b'A', 0x0A, 0x00, 0x14, 0x00, 1, 2, 3, 4, 5];
    assert!(CommandIn::from_bytes(&frame).is_none());
}

#[test]
fn draw_osc_with_no_samples_decodes_to_empty_waveform() {
    let frame = [0xFC, 9, 8, 7];
    match CommandIn::from_bytes(&frame).expect("4-byte draw-osc must decode") {
        CommandIn::DrawOsc { params } => {
            assert_eq!(params.color, Color::new(9, 8, 7));
            assert!(params.waveform.is_empty());
        }
        other => panic!("expected a draw-osc command, got {:?}", other),
    }
}

#[test]
fn draw_osc_carries_waveform_samples_in_order() {
    let frame = [0xFC, 0, 0, 0, 11, 22, 33, 44];
    match CommandIn::from_bytes(&frame).expect("draw-osc with samples must decode") {
        CommandIn::DrawOsc { params } => {
            assert_eq!(params.waveform, vec![11, 22, 33, 44]);
        }
        other => panic!("expected a draw-osc command, got {:?}", other),
    }
}

#[test]
fn draw_osc_accepts_the_largest_frame_and_rejects_one_more() {
    let mut frame = vec![0xFCu8, 0, 0, 0];
    frame.extend(std::iter::repeat(0x55u8).take(480));
    assert_eq!(frame.len(), 484);
    match CommandIn::from_bytes(&frame).expect("484-byte draw-osc must decode") {
        CommandIn::DrawOsc { params } => assert_eq!(params.waveform.len(), 480),
        other => panic!("expected a draw-osc command, got {:?}", other),
    }
    frame.push(0);
    assert!(CommandIn::from_bytes(&frame).is_none());
    assert!(CommandIn::from_bytes(&[0xFC, 1, 2]).is_none());
}

#[test]
fn key_state_decodes_from_its_three_byte_frame() {
    let cmd = CommandIn::from_bytes(&[0xFB, 0b0000_0001, 0x00]);
    match cmd.expect("3-byte key-state must decode") {
        CommandIn::GetKeyState { keystate } => {
            assert!(keystate.is_pressed(&Key::Edit));
            for key in [
                Key::Up,
                Key::Down,
                Key::Left,
                Key::Right,
                Key::Shift,
                Key::Play,
                Key::Option,
            ] {
                assert!(!keystate.is_pressed(&key), "{:?} must not be pressed", key);
            }
        }
        other => panic!("expected a key-state command, got {:?}", other),
    }
}

#[test]
fn key_state_round_trip_through_key_control_encoding() {
    // Encoding a key-control command for the bitfield, then decoding a
    // key-state frame with the same bitfield, reports exactly that state.
    let bits = 0b0000_0001u8;
    let encoded = CommandOut::ControlKeys { keybits: bits }.to_bytes();
    assert_eq!(encoded, vec![b'C', bits]);
    let mut frame = vec![0xFBu8, encoded[1]];
    frame.push(0x00);
    match CommandIn::from_bytes(&frame).unwrap() {
        CommandIn::GetKeyState { keystate } => {
            assert_eq!(keystate.to_byte(), bits);
            assert!(keystate.is_pressed(&Key::Edit));
        }
        other => panic!("expected a key-state command, got {:?}", other),
    }
}

#[test]
fn key_state_wrong_length_decodes_to_nothing() {
    assert!(CommandIn::from_bytes(&[0xFB, 0x01]).is_none());
    assert!(CommandIn::from_bytes(&[0xFB, 0x01, 0x00, 0x00]).is_none());
}

#[test]
fn system_info_decodes_model_firmware_and_font() {
    let frame = [0xFF, 0x02, 1, 0, 3, 0x01];
    match CommandIn::from_bytes(&frame).expect("6-byte system-info must decode") {
        CommandIn::GetSystemInfo { info } => {
            assert_eq!(info.model, HardwareType::Model01);
            assert_eq!(info.firmware, "1.0.3");
            assert_eq!(info.font, FontType::Model01Big);
        }
        other => panic!("expected a system-info command, got {:?}", other),
    }
}

#[test]
fn system_info_font_depends_on_model() {
    let frame = [0xFF, 0x03, 2, 7, 1, 0x02];
    match CommandIn::from_bytes(&frame).unwrap() {
        CommandIn::GetSystemInfo { info } => {
            assert_eq!(info.model, HardwareType::Model02);
            assert_eq!(info.firmware, "2.7.1");
            assert_eq!(info.font, FontType::Model02Huge);
        }
        other => panic!("expected a system-info command, got {:?}", other),
    }
}

#[test]
fn system_info_wrong_length_decodes_to_nothing() {
    assert!(CommandIn::from_bytes(&[0xFF, 0x02, 1, 0, 3]).is_none());
    assert!(CommandIn::from_bytes(&[0xFF, 0x02, 1, 0, 3, 0, 0]).is_none());
}

#[test]
fn unknown_tags_and_empty_frames_decode_to_nothing() {
    assert!(CommandIn::from_bytes(&[]).is_none());
    assert!(CommandIn::from_bytes(&[0x00]).is_none());
    assert!(CommandIn::from_bytes(&[0x41, 1, 2, 3]).is_none());
    assert!(CommandIn::from_bytes(&[0xFA, 1, 2]).is_none());
}

#[test]
fn outgoing_commands_encode_to_their_documented_bytes() {
    assert_eq!(
        CommandOut::ControlKeys { keybits: 0xA5 }.to_bytes(),
        vec![b'C', 0xA5]
    );
    assert_eq!(
        CommandOut::KeyJazz { note: 60, velocity: 100 }.to_bytes(),
        vec![b'K', 60, 100]
    );
    assert_eq!(CommandOut::EnableDisplay.to_bytes(), vec![b'E']);
    assert_eq!(CommandOut::ResetDisplay.to_bytes(), vec![b'R']);
    assert_eq!(CommandOut::DisableDisplay.to_bytes(), vec![b'D']);
    assert_eq!(
        CommandOut::ThemeColor { index: 3, r: 1, g: 2, b: 3 }.to_bytes(),
        vec![b'S', 3, 1, 2, 3]
    );
    assert_eq!(CommandOut::Ping.to_bytes(), vec![b'X']);
}

#[test]
fn firmware_strings_format_each_byte_in_decimal() {
    assert_eq!(firmware_string(0, 0, 0), "0.0.0");
    assert_eq!(firmware_string(1, 0, 3), "1.0.3");
    assert_eq!(firmware_string(255, 10, 99), "255.10.99");
    assert_eq!(firmware_string(100, 9, 250), "100.9.250");
}
