//! Data types shared with the audio capability. The audio capture and
//! playback backends themselves are external collaborators of this core;
//! these are the plain values that cross that boundary.

use vstd::prelude::*;

verus! {

/// The shape of an audio stream, as an audio backend reports it.
pub struct AudioSpec {
    driver_name: String,
    format: String,
    num_channels: usize,
    sample_rate: usize,
    buffer_size: usize,
}

impl AudioSpec {
    pub closed spec fn spec_driver_name(&self) -> Seq<char> {
        self.driver_name@
    }

    pub closed spec fn spec_format(&self) -> Seq<char> {
        self.format@
    }

    pub closed spec fn spec_num_channels(&self) -> usize {
        self.num_channels
    }

    pub closed spec fn spec_sample_rate(&self) -> usize {
        self.sample_rate
    }

    pub closed spec fn spec_buffer_size(&self) -> usize {
        self.buffer_size
    }

    pub fn new(
        driver_name: String,
        format: String,
        num_channels: usize,
        sample_rate: usize,
        buffer_size: usize,
    ) -> (r: AudioSpec)
        ensures
            r.spec_driver_name() == driver_name@,
            r.spec_format() == format@,
            r.spec_num_channels() == num_channels,
            r.spec_sample_rate() == sample_rate,
            r.spec_buffer_size() == buffer_size,
    {
        AudioSpec { driver_name, format, num_channels, sample_rate, buffer_size }
    }

    /// Name of the audio driver in use.
    pub fn driver_name(&self) -> (r: &str)
        ensures
            r@ == self.spec_driver_name(),
    {
        self.driver_name.as_str()
    }

    /// Sample format, e.g. 32-bit float little-endian.
    pub fn format(&self) -> (r: &str)
        ensures
            r@ == self.spec_format(),
    {
        self.format.as_str()
    }

    /// Number of channels: one for mono, two for stereo.
    pub fn num_channels(&self) -> (r: usize)
        ensures
            r == self.spec_num_channels(),
    {
        self.num_channels
    }

    /// Sample rate in Hz.
    pub fn sample_rate(&self) -> (r: usize)
        ensures
            r == self.spec_sample_rate(),
    {
        self.sample_rate
    }

    /// Size of the audio buffer in samples.
    pub fn buffer_size(&self) -> (r: usize)
        ensures
            r == self.spec_buffer_size(),
    {
        self.buffer_size
    }
}

/// An audio track of the device in multichannel mode.
#[derive(Clone, Copy, Debug, PartialEq, Eq, Structural)]
pub enum AudioTrack {
    Mix,
    Track1,
    Track2,
    Track3,
    Track4,
    Track5,
    Track6,
    Track7,
    Track8,
    ModFx,
    DelayFx,
    ReverbFx,
}

impl AudioTrack {
    /// The track at a multichannel index; anything out of range is the mix.
    pub open spec fn spec_from_index(index: usize) -> AudioTrack {
        if index == 1 {
            AudioTrack::Track1
        } else if index == 2 {
            AudioTrack::Track2
        } else if index == 3 {
            AudioTrack::Track3
        } else if index == 4 {
            AudioTrack::Track4
        } else if index == 5 {
            AudioTrack::Track5
        } else if index == 6 {
            AudioTrack::Track6
        } else if index == 7 {
            AudioTrack::Track7
        } else if index == 8 {
            AudioTrack::Track8
        } else if index == 9 {
            AudioTrack::ModFx
        } else if index == 10 {
            AudioTrack::DelayFx
        } else if index == 11 {
            AudioTrack::ReverbFx
        } else {
            AudioTrack::Mix
        }
    }

    pub fn from_index(index: usize) -> (r: AudioTrack)
        ensures
            r == AudioTrack::spec_from_index(index),
    {
        match index {
            1 => AudioTrack::Track1,
            2 => AudioTrack::Track2,
            3 => AudioTrack::Track3,
            4 => AudioTrack::Track4,
            5 => AudioTrack::Track5,
            6 => AudioTrack::Track6,
            7 => AudioTrack::Track7,
            8 => AudioTrack::Track8,
            9 => AudioTrack::ModFx,
            10 => AudioTrack::DelayFx,
            11 => AudioTrack::ReverbFx,
            _ => AudioTrack::Mix,
        }
    }

    /// The pair of interleaved channel indices carrying this track.
    pub fn channels(&self) -> (r: (usize, usize))
        ensures
            r.0 + 1 == r.1,
            r == self.spec_channels(),
    {
        match self {
            AudioTrack::Mix => (0, 1),
            AudioTrack::Track1 => (2, 3),
            AudioTrack::Track2 => (4, 5),
            AudioTrack::Track3 => (6, 7),
            AudioTrack::Track4 => (8, 9),
            AudioTrack::Track5 => (10, 11),
            AudioTrack::Track6 => (12, 13),
            AudioTrack::Track7 => (14, 15),
            AudioTrack::Track8 => (16, 17),
            AudioTrack::ModFx => (18, 19),
            AudioTrack::DelayFx => (20, 21),
            AudioTrack::ReverbFx => (22, 23),
        }
    }

    pub open spec fn spec_channels(self) -> (usize, usize) {
        match self {
            AudioTrack::Mix => (0usize, 1usize),
            AudioTrack::Track1 => (2usize, 3usize),
            AudioTrack::Track2 => (4usize, 5usize),
            AudioTrack::Track3 => (6usize, 7usize),
            AudioTrack::Track4 => (8usize, 9usize),
            AudioTrack::Track5 => (10usize, 11usize),
            AudioTrack::Track6 => (12usize, 13usize),
            AudioTrack::Track7 => (14usize, 15usize),
            AudioTrack::Track8 => (16usize, 17usize),
            AudioTrack::ModFx => (18usize, 19usize),
            AudioTrack::DelayFx => (20usize, 21usize),
            AudioTrack::ReverbFx => (22usize, 23usize),
        }
    }
}

} // verus!
