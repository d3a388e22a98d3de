//! The error taxonomy of the driver core.

use vstd::prelude::*;

verus! {

/// Everything that can go wrong between a caller and the device.
#[derive(Clone, Debug)]
pub enum Error {
    /// A frame grew past the accumulator's capacity.
    BufferOverflow,
    /// An incoming command or its framing was malformed.
    CommandParseError(String),
    /// No backend is attached to communicate with the device.
    NoBackend,
    /// An audio-related failure in an audio backend.
    AudioError(String),
    /// No matching device was found.
    DeviceNotFound,
    /// Opening, cloning, handshaking or shutting down the connection failed.
    DeviceConnectionError(String),
    /// The device failed while reading data.
    DeviceReadError(String),
    /// An operation needed a live connection and there was none.
    DeviceNotConnected(String),
}

impl Error {
    /// A human-readable description, in place of a `Display` impl: a fixed
    /// text per condition, with the condition's detail appended where one
    /// is carried.
    pub fn message(&self) -> (r: String)
        ensures
            r@ == match self {
                Error::BufferOverflow => "Buffer overflow"@,
                Error::CommandParseError(s) => "Failed to parse command: "@ + s@,
                Error::NoBackend => "No backend available"@,
                Error::AudioError(s) => "Audio error: "@ + s@,
                Error::DeviceNotFound => "Device not found"@,
                Error::DeviceConnectionError(s) => "Device connection error: "@ + s@,
                Error::DeviceReadError(s) => "Device read error: "@ + s@,
                Error::DeviceNotConnected(s) => "Device not connected: "@ + s@,
            },
    {
        match self {
            Error::BufferOverflow => "Buffer overflow".to_owned(),
            Error::CommandParseError(s) => "Failed to parse command: ".to_owned().concat(
                s.as_str(),
            ),
            Error::NoBackend => "No backend available".to_owned(),
            Error::AudioError(s) => "Audio error: ".to_owned().concat(s.as_str()),
            Error::DeviceNotFound => "Device not found".to_owned(),
            Error::DeviceConnectionError(s) => "Device connection error: ".to_owned().concat(
                s.as_str(),
            ),
            Error::DeviceReadError(s) => "Device read error: ".to_owned().concat(s.as_str()),
            Error::DeviceNotConnected(s) => "Device not connected: ".to_owned().concat(s.as_str()),
        }
    }
}

} // verus!
