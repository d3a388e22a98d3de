//! Host-side driver core for the M8 tracker's serial protocol: the SLIP
//! byte-stream framing, the binary command codec for device-to-host and
//! host-to-device commands, and the transport backend that owns a
//! connection and exposes connect / poll / send / disconnect.

pub mod audio;
pub mod backend;
pub mod client;
pub mod color;
pub mod commands;
pub mod error;
pub mod hardware;
pub mod keys;
pub mod ports;
pub mod serial_io;
pub mod slip;

pub use audio::AudioSpec;
pub use audio::AudioTrack;
pub use backend::ReadEvent;
pub use backend::ReaderAction;
pub use backend::ReaderHandoff;
pub use backend::SerialBackend;
pub use backend::reader_step;
pub use client::Backend;
pub use client::Client;
pub use color::Color;
pub use commands::CommandIn;
pub use commands::CommandOut;
pub use commands::DrawCharParams;
pub use commands::DrawOscParams;
pub use commands::DrawRectParams;
pub use commands::SystemInfo;
pub use error::Error;
pub use hardware::Font;
pub use hardware::FontType;
pub use hardware::HardwareType;
pub use hardware::M8_PID_MULTICHANNEL;
pub use hardware::M8_PID_STEREO;
pub use hardware::M8_VID;
pub use hardware::NUM_THEME_COLORS;
pub use keys::Key;
pub use keys::KeyState;
pub use ports::PortInfo;
pub use ports::UsbId;
pub use ports::get_serial_ports;
pub use ports::is_valid_serial_port;
pub use ports::is_valid_serial_port_path;
pub use slip::ByteBuffer;
pub use slip::SlipByte;
pub use slip::SlipDecoder;
