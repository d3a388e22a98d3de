//! Tests of the plain data types: keys and their bitfield, hardware models,
//! fonts, colors, audio descriptors, port validity and error messages.

use m8link::AudioSpec;
use m8link::AudioTrack;
use m8link::Color;
use m8link::Error;
use m8link::FontType;
use m8link::HardwareType;
use m8link::Key;
use m8link::KeyState;
use m8link::PortInfo;
use m8link::UsbId;
use m8link::is_valid_serial_port;
use m8link::is_valid_serial_port_path;

#[test]
fn key_bits_sit_at_their_documented_positions() {
    assert_eq!(Key::Up.to_byte(), 1 << 6);
    assert_eq!(Key::Down.to_byte(), 1 << 5);
    assert_eq!(Key::Left.to_byte(), 1 << 7);
    assert_eq!(Key::Right.to_byte(), 1 << 2);
    assert_eq!(Key::Shift.to_byte(), 1 << 4);
    assert_eq!(Key::Play.to_byte(), 1 << 3);
    assert_eq!(Key::Option.to_byte(), 1 << 1);
    assert_eq!(Key::Edit.to_byte(), 1 << 0);
}

#[test]
fn key_from_byte_inverts_to_byte_and_rejects_other_bytes() {
    for key in Key::all_keys() {
        let byte = key.to_byte();
        assert_eq!(Key::from_byte(byte), Some(key));
    }
    assert_eq!(Key::from_byte(0x00), None);
    assert_eq!(Key::from_byte(0x03), None);
    assert_eq!(Key::from_byte(0xFF), None);
}

#[test]
fn set_pressed_raises_and_clears_exactly_one_bit() {
    let mut state = KeyState::default();
    assert_eq!(state.to_byte(), 0);
    state.set_pressed(&Key::Shift, true);
    assert!(state.is_pressed(&Key::Shift));
    assert_eq!(state.to_byte(), 1 << 4);
    state.set_pressed(&Key::Play, true);
    assert_eq!(state.to_byte(), (1 << 4) | (1 << 3));
    state.set_pressed(&Key::Shift, false);
    assert_eq!(state.to_byte(), 1 << 3);
    // Setting an already-clear key stays clear.
    state.set_pressed(&Key::Shift, false);
    assert_eq!(state.to_byte(), 1 << 3);
}

#[test]
fn the_four_directions_together_are_the_reserved_combination() {
    let mut state = KeyState::new(0);
    for key in [Key::Up, Key::Down, Key::Left, Key::Right] {
        assert!(!state.is_easter_egg());
        state.set_pressed(&key, true);
    }
    assert!(state.is_easter_egg());
    assert_eq!(state.to_byte(), Key::UP_DOWN_LEFT_RIGHT);
    state.set_pressed(&Key::Edit, true);
    assert!(!state.is_easter_egg());
}

#[test]
fn hardware_models_map_from_their_bytes_and_back_off_to_headless() {
    assert_eq!(HardwareType::from(0x00), HardwareType::ModelHeadless);
    assert_eq!(HardwareType::from(0x01), HardwareType::ModelBeta);
    assert_eq!(HardwareType::from(0x02), HardwareType::Model01);
    assert_eq!(HardwareType::from(0x03), HardwareType::Model02);
    assert_eq!(HardwareType::from(0x42), HardwareType::ModelHeadless);
}

#[test]
fn screen_sizes_follow_the_model() {
    assert_eq!(HardwareType::Model02.screen_size(), (480, 320));
    assert_eq!(HardwareType::Model01.screen_size(), (320, 240));
    assert_eq!(HardwareType::ModelBeta.screen_size(), (320, 240));
    assert_eq!(HardwareType::ModelHeadless.screen_size(), (320, 240));
}

#[test]
fn hardware_names_are_stable() {
    assert_eq!(HardwareType::ModelHeadless.name(), "Headless");
    assert_eq!(HardwareType::ModelBeta.name(), "Beta");
    assert_eq!(HardwareType::Model01.name(), "Model:01");
    assert_eq!(HardwareType::Model02.name(), "Model:02");
    assert_eq!(HardwareType::default(), HardwareType::Model01);
}

#[test]
fn fonts_follow_model_and_selector_byte() {
    let m01 = HardwareType::Model01;
    let m02 = HardwareType::Model02;
    assert_eq!(FontType::from(&m01, 0x00), FontType::Model01Normal);
    assert_eq!(FontType::from(&m01, 0x01), FontType::Model01Big);
    assert_eq!(FontType::from(&m01, 0x07), FontType::Model01Normal);
    assert_eq!(FontType::from(&m02, 0x00), FontType::Model02Normal);
    assert_eq!(FontType::from(&m02, 0x01), FontType::Model02Bold);
    assert_eq!(FontType::from(&m02, 0x02), FontType::Model02Huge);
    assert_eq!(FontType::from(&m02, 0x07), FontType::Model02Normal);
}

#[test]
fn font_metrics_match_their_font() {
    let small = FontType::Model01Normal.get_data();
    assert_eq!((small.char_width, small.char_height), (5, 7));
    assert_eq!(small.draw_y_offset, 0);
    assert_eq!(small.waveform_max, 24);
    let big = FontType::Model01Big.get_data();
    assert_eq!((big.char_width, big.char_height), (8, 9));
    assert_eq!(big.draw_y_offset, -40);
    let huge = FontType::Model02Huge.get_data();
    assert_eq!((huge.char_width, huge.char_height), (12, 12));
    assert_eq!(huge.draw_y_offset, -54);
}

#[test]
fn colors_hold_their_channels() {
    let c = Color::new(1, 2, 3);
    assert_eq!((c.r, c.g, c.b), (1, 2, 3));
    assert_eq!(Color::default(), Color::new(0, 0, 0));
}

#[test]
fn audio_tracks_map_from_indices_with_mix_as_the_rest() {
    assert_eq!(AudioTrack::from_index(0), AudioTrack::Mix);
    assert_eq!(AudioTrack::from_index(1), AudioTrack::Track1);
    assert_eq!(AudioTrack::from_index(8), AudioTrack::Track8);
    assert_eq!(AudioTrack::from_index(9), AudioTrack::ModFx);
    assert_eq!(AudioTrack::from_index(10), AudioTrack::DelayFx);
    assert_eq!(AudioTrack::from_index(11), AudioTrack::ReverbFx);
    assert_eq!(AudioTrack::from_index(12), AudioTrack::Mix);
    assert_eq!(AudioTrack::from_index(usize::MAX), AudioTrack::Mix);
}

#[test]
fn audio_tracks_occupy_adjacent_channel_pairs() {
    assert_eq!(AudioTrack::Mix.channels(), (0, 1));
    assert_eq!(AudioTrack::Track1.channels(), (2, 3));
    assert_eq!(AudioTrack::Track8.channels(), (16, 17));
    assert_eq!(AudioTrack::ReverbFx.channels(), (22, 23));
    for i in 0..12 {
        let (left, right) = AudioTrack::from_index(i).channels();
        assert_eq!(left + 1, right);
    }
}

#[test]
fn audio_spec_reports_what_it_was_built_from() {
    let spec = AudioSpec::new(
        String::from("alsa"),
        String::from("F32LE"),
        2,
        44100,
        1024,
    );
    assert_eq!(spec.driver_name(), "alsa");
    assert_eq!(spec.format(), "F32LE");
    assert_eq!(spec.num_channels(), 2);
    assert_eq!(spec.sample_rate(), 44100);
    assert_eq!(spec.buffer_size(), 1024);
}

#[test]
fn port_validity_follows_vendor_and_product_identifiers() {
    let stereo = PortInfo {
        name: String::from("/dev/ttyACM0"),
        usb: Some(UsbId { vid: 0x16C0, pid: 0x048A }),
    };
    let multichannel = PortInfo {
        name: String::from("/dev/ttyACM1"),
        usb: Some(UsbId { vid: 0x16C0, pid: 0x048B }),
    };
    let wrong_vendor = PortInfo {
        name: String::from("/dev/ttyACM2"),
        usb: Some(UsbId { vid: 0x16C1, pid: 0x048A }),
    };
    let wrong_product = PortInfo {
        name: String::from("/dev/ttyACM3"),
        usb: Some(UsbId { vid: 0x16C0, pid: 0x048C }),
    };
    let not_usb = PortInfo { name: String::from("/dev/ttyS0"), usb: None };
    assert!(is_valid_serial_port(&stereo));
    assert!(is_valid_serial_port(&multichannel));
    assert!(!is_valid_serial_port(&wrong_vendor));
    assert!(!is_valid_serial_port(&wrong_product));
    assert!(!is_valid_serial_port(&not_usb));
}

#[test]
fn a_path_that_is_no_port_is_not_a_device_path() {
    assert!(!is_valid_serial_port_path("/definitely/not/a/port"));
}

#[test]
fn error_messages_name_their_condition() {
    assert_eq!(Error::BufferOverflow.message(), "Buffer overflow");
    assert_eq!(Error::NoBackend.message(), "No backend available");
    assert_eq!(Error::DeviceNotFound.message(), "Device not found");
    assert_eq!(
        Error::CommandParseError(String::from("bad escape")).message(),
        "Failed to parse command: bad escape"
    );
    assert_eq!(
        Error::AudioError(String::from("no device")).message(),
        "Audio error: no device"
    );
    assert_eq!(
        Error::DeviceConnectionError(String::from("busy")).message(),
        "Device connection error: busy"
    );
    assert_eq!(
        Error::DeviceReadError(String::from("gone")).message(),
        "Device read error: gone"
    );
    assert_eq!(
        Error::DeviceNotConnected(String::from("never")).message(),
        "Device not connected: never"
    );
}
