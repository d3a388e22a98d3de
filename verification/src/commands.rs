//! The binary command codec: decoding raw device-to-host frames into typed
//! commands, and encoding typed host-to-device commands into raw bytes.
//!
//! A device-to-host frame starts with a tag byte; each tag admits one or
//! more frame lengths, and anything else decodes to nothing so the caller
//! can drop the frame and keep polling. Host-to-device commands are a
//! one-character ASCII tag followed by fixed parameters.

use vstd::prelude::*;

use crate::color::Color;
use crate::hardware::FontType;
use crate::hardware::HardwareType;
use crate::keys::KeyState;

verus! {

/// A 16-bit little-endian value read from two bytes.
pub open spec fn le16(lo: u8, hi: u8) -> u16 {
    (lo + hi * 256) as u16
}

/// The decimal digits of a byte, most significant first, no leading zeros.
pub open spec fn decimal_chars(n: u8) -> Seq<char> {
    if n < 10 {
        seq![decimal_digit(n as nat)]
    } else if n < 100 {
        seq![decimal_digit((n / 10) as nat), decimal_digit((n % 10) as nat)]
    } else {
        seq![
            decimal_digit((n / 100) as nat),
            decimal_digit(((n / 10) % 10) as nat),
            decimal_digit((n % 10) as nat),
        ]
    }
}

pub open spec fn decimal_digit(d: nat) -> char {
    if d == 0 {
        '0'
    } else if d == 1 {
        '1'
    } else if d == 2 {
        '2'
    } else if d == 3 {
        '3'
    } else if d == 4 {
        '4'
    } else if d == 5 {
        '5'
    } else if d == 6 {
        '6'
    } else if d == 7 {
        '7'
    } else if d == 8 {
        '8'
    } else {
        '9'
    }
}

/// The firmware version as displayed: major, minor and patch in decimal,
/// separated by dots.
pub open spec fn firmware_chars(major: u8, minor: u8, patch: u8) -> Seq<char> {
    decimal_chars(major) + seq!['.'] + decimal_chars(minor) + seq!['.'] + decimal_chars(patch)
}

fn digit_string(d: u8) -> (s: String)
    requires
        d < 10,
    ensures
        s@ == seq![decimal_digit(d as nat)],
{
    let s = match d {
        0 => "0",
        1 => "1",
        2 => "2",
        3 => "3",
        4 => "4",
        5 => "5",
        6 => "6",
        7 => "7",
        8 => "8",
        _ => "9",
    };
    proof {
        reveal_strlit("0");
        reveal_strlit("1");
        reveal_strlit("2");
        reveal_strlit("3");
        reveal_strlit("4");
        reveal_strlit("5");
        reveal_strlit("6");
        reveal_strlit("7");
        reveal_strlit("8");
        reveal_strlit("9");
        assert(s@ =~= seq![decimal_digit(d as nat)]);
    }
    s.to_owned()
}

/// Appends the decimal form of a byte to a string.
fn push_decimal(s: &mut String, n: u8)
    ensures
        final(s)@ == old(s)@ + decimal_chars(n),
{
    if n >= 100 {
        let d = digit_string(n / 100);
        s.append(d.as_str());
    }
    if n >= 10 {
        let d = digit_string((n / 10) % 10);
        s.append(d.as_str());
    }
    let d = digit_string(n % 10);
    s.append(d.as_str());
    proof {
        assert(final(s)@ =~= old(s)@ + decimal_chars(n));
    }
}

/// The firmware version string, `major.minor.patch` in decimal.
pub fn firmware_string(major: u8, minor: u8, patch: u8) -> (s: String)
    ensures
        s@ == firmware_chars(major, minor, patch),
{
    let mut s = String::new();
    push_decimal(&mut s, major);
    let dot = ".";
    proof {
        reveal_strlit(".");
        assert(dot@ =~= seq!['.']);
    }
    s.append(dot);
    push_decimal(&mut s, minor);
    s.append(dot);
    push_decimal(&mut s, patch);
    proof {
        assert(s@ =~= firmware_chars(major, minor, patch));
    }
    s
}

/// Parameters of a draw-rect command. A missing color means: reuse the last
/// color the device sent.
#[derive(Clone, Debug, PartialEq, Eq, Structural)]
pub struct DrawRectParams {
    pub x: u16,
    pub y: u16,
    pub width: u16,
    pub height: u16,
    pub color: Option<Color>,
}

/// Parameters of a draw-char command.
#[derive(Clone, Debug, PartialEq, Eq, Structural)]
pub struct DrawCharParams {
    pub c: char,
    pub x: u16,
    pub y: u16,
    pub color_fg: Color,
    pub color_bg: Color,
}

/// Parameters of a draw-oscilloscope command.
#[derive(Clone, Debug, PartialEq, Eq)]
pub struct DrawOscParams {
    pub color: Color,
    pub waveform: Vec<u8>,
}

/// Contents of a system-info command.
#[derive(Clone, Debug, PartialEq, Eq)]
pub struct SystemInfo {
    pub model: HardwareType,
    pub firmware: String,
    pub font: FontType,
}

/// Commands sent from the device to the host.
#[derive(Clone, Debug)]
pub enum CommandIn {
    /// Draw a filled rectangle.
    DrawRect { params: DrawRectParams },
    /// Draw one character.
    DrawChar { params: DrawCharParams },
    /// Draw the oscilloscope waveform.
    DrawOsc { params: DrawOscParams },
    /// The pressed state of the eight keys, as a bitfield.
    GetKeyState { keystate: KeyState },
    /// Hardware model, firmware version and font selection.
    GetSystemInfo { info: SystemInfo },
}

/// The mathematical value of a decoded command: variable-size payloads as
/// sequences rather than vectors.
pub ghost enum CommandModel {
    DrawRect { params: DrawRectParams },
    DrawChar { params: DrawCharParams },
    DrawOsc { color: Color, waveform: Seq<u8> },
    GetKeyState { bits: u8 },
    GetSystemInfo { model: HardwareType, firmware: Seq<char>, font: FontType },
}

impl DeepView for CommandIn {
    type V = CommandModel;

    open spec fn deep_view(&self) -> CommandModel {
        self.view()
    }
}

impl View for CommandIn {
    type V = CommandModel;

    open spec fn view(&self) -> CommandModel {
        match self {
            CommandIn::DrawRect { params } => CommandModel::DrawRect { params: *params },
            CommandIn::DrawChar { params } => CommandModel::DrawChar { params: *params },
            CommandIn::DrawOsc { params } => CommandModel::DrawOsc {
                color: params.color,
                waveform: params.waveform@,
            },
            CommandIn::GetKeyState { keystate } => CommandModel::GetKeyState { bits: keystate@ },
            CommandIn::GetSystemInfo { info } => CommandModel::GetSystemInfo {
                model: info.model,
                firmware: info.firmware@,
                font: info.font,
            },
        }
    }
}

/// What a device-to-host frame decodes to, by the documented layout:
/// nothing for an unknown tag or a length the tag does not admit.
pub open spec fn decode_spec(bytes: Seq<u8>) -> Option<CommandModel> {
    if bytes.len() == 0 {
        None
    } else {
        let tag = bytes[0];
        if tag == CommandIn::DRAW_RECT {
            if bytes.len() == CommandIn::DRAW_RECT_SIZE_1 {
                Some(CommandModel::DrawRect {
                    params: DrawRectParams {
                        x: le16(bytes[1], bytes[2]),
                        y: le16(bytes[3], bytes[4]),
                        width: le16(bytes[5], bytes[6]),
                        height: le16(bytes[7], bytes[8]),
                        color: Some(Color { r: bytes[9], g: bytes[10], b: bytes[11] }),
                    },
                })
            } else if bytes.len() == CommandIn::DRAW_RECT_SIZE_2 {
                Some(CommandModel::DrawRect {
                    params: DrawRectParams {
                        x: le16(bytes[1], bytes[2]),
                        y: le16(bytes[3], bytes[4]),
                        width: le16(bytes[5], bytes[6]),
                        height: le16(bytes[7], bytes[8]),
                        color: None,
                    },
                })
            } else if bytes.len() == CommandIn::DRAW_RECT_SIZE_3 {
                Some(CommandModel::DrawRect {
                    params: DrawRectParams {
                        x: le16(bytes[1], bytes[2]),
                        y: le16(bytes[3], bytes[4]),
                        width: 1u16,
                        height: 1u16,
                        color: Some(Color { r: bytes[5], g: bytes[6], b: bytes[7] }),
                    },
                })
            } else if bytes.len() == CommandIn::DRAW_RECT_SIZE_4 {
                Some(CommandModel::DrawRect {
                    params: DrawRectParams {
                        x: le16(bytes[1], bytes[2]),
                        y: le16(bytes[3], bytes[4]),
                        width: 1u16,
                        height: 1u16,
                        color: None,
                    },
                })
            } else {
                None
            }
        } else if tag == CommandIn::DRAW_CHAR {
            if bytes.len() == CommandIn::DRAW_CHAR_SIZE {
                Some(CommandModel::DrawChar {
                    params: DrawCharParams {
                        c: bytes[1] as char,
                        x: le16(bytes[2], bytes[3]),
                        y: le16(bytes[4], bytes[5]),
                        color_fg: Color { r: bytes[6], g: bytes[7], b: bytes[8] },
                        color_bg: Color { r: bytes[9], g: bytes[10], b: bytes[11] },
                    },
                })
            } else {
                None
            }
        } else if tag == CommandIn::DRAW_OSC {
            if CommandIn::DRAW_OSC_SIZE_MIN <= bytes.len() && bytes.len()
                <= CommandIn::DRAW_OSC_SIZE_MAX {
                Some(CommandModel::DrawOsc {
                    color: Color { r: bytes[1], g: bytes[2], b: bytes[3] },
                    waveform: bytes.subrange(4, bytes.len() as int),
                })
            } else {
                None
            }
        } else if tag == CommandIn::GET_KEY_PRESS {
            if bytes.len() == CommandIn::KEY_PRESS_SIZE {
                Some(CommandModel::GetKeyState { bits: bytes[1] })
            } else {
                None
            }
        } else if tag == CommandIn::GET_SYSTEM_INFO {
            if bytes.len() == CommandIn::SYSTEM_INFO_SIZE {
                let model = HardwareType::spec_from(bytes[1]);
                Some(CommandModel::GetSystemInfo {
                    model,
                    firmware: firmware_chars(bytes[2], bytes[3], bytes[4]),
                    font: FontType::spec_from(model, bytes[5]),
                })
            } else {
                None
            }
        } else {
            None
        }
    }
}

/// A copy of the tail of a slice, from `from` to its end.
fn suffix_vec(bytes: &[u8], from: usize) -> (v: Vec<u8>)
    requires
        from <= bytes@.len(),
    ensures
        v@ == bytes@.subrange(from as int, bytes@.len() as int),
{
    let mut v: Vec<u8> = Vec::new();
    let mut i: usize = from;
    while i < bytes.len()
        invariant
            from <= i <= bytes@.len(),
            v@ == bytes@.subrange(from as int, i as int),
        decreases bytes@.len() - i,
    {
        v.push(bytes[i]);
        proof {
            assert(bytes@.subrange(from as int, i + 1) =~= bytes@.subrange(
                from as int,
                i as int,
            ).push(bytes@[i as int]));
        }
        i = i + 1;
    }
    proof {
        assert(v@ =~= bytes@.subrange(from as int, bytes@.len() as int));
    }
    v
}

fn read_le16(lo: u8, hi: u8) -> (r: u16)
    ensures
        r == le16(lo, hi),
{
    (lo as u16) + (hi as u16) * 256
}

impl CommandIn {
    /// Tag byte of a draw-rect frame.
    pub const DRAW_RECT: u8 = 0xFE;

    /// Tag byte of a draw-char frame.
    pub const DRAW_CHAR: u8 = 0xFD;

    /// Tag byte of a draw-oscilloscope frame.
    pub const DRAW_OSC: u8 = 0xFC;

    /// Tag byte of a key-state frame.
    pub const GET_KEY_PRESS: u8 = 0xFB;

    /// Tag byte of a system-info frame.
    pub const GET_SYSTEM_INFO: u8 = 0xFF;

    /// Full draw-rect: coordinates, size and color.
    pub const DRAW_RECT_SIZE_1: usize = 12;

    /// Draw-rect reusing the last color.
    pub const DRAW_RECT_SIZE_2: usize = 9;

    /// Single-pixel draw with color.
    pub const DRAW_RECT_SIZE_3: usize = 8;

    /// Single-pixel draw reusing the last color.
    pub const DRAW_RECT_SIZE_4: usize = 5;

    /// Shortest draw-oscilloscope frame: tag and color, no samples.
    pub const DRAW_OSC_SIZE_MIN: usize = 4;

    /// Longest draw-oscilloscope frame: 480 samples.
    pub const DRAW_OSC_SIZE_MAX: usize = 484;

    pub const DRAW_CHAR_SIZE: usize = 12;

    pub const KEY_PRESS_SIZE: usize = 3;

    pub const SYSTEM_INFO_SIZE: usize = 6;

    /// Decodes one frame. Frames with an unknown tag, or with a length
    /// their tag does not admit, decode to nothing so the caller can drop
    /// them without failing.
    pub fn from_bytes(bytes: &[u8]) -> (r: Option<CommandIn>)
        ensures
            r matches Some(c) ==> decode_spec(bytes@) == Some(c@),
            r is None ==> decode_spec(bytes@) is None,
    {
        if bytes.len() == 0 {
            return None;
        }
        let command_byte = bytes[0];
        if command_byte == Self::DRAW_RECT {
            if bytes.len() == Self::DRAW_RECT_SIZE_1 {
                Some(CommandIn::DrawRect {
                    params: DrawRectParams {
                        x: read_le16(bytes[1], bytes[2]),
                        y: read_le16(bytes[3], bytes[4]),
                        width: read_le16(bytes[5], bytes[6]),
                        height: read_le16(bytes[7], bytes[8]),
                        color: Some(Color::new(bytes[9], bytes[10], bytes[11])),
                    },
                })
            } else if bytes.len() == Self::DRAW_RECT_SIZE_2 {
                Some(CommandIn::DrawRect {
                    params: DrawRectParams {
                        x: read_le16(bytes[1], bytes[2]),
                        y: read_le16(bytes[3], bytes[4]),
                        width: read_le16(bytes[5], bytes[6]),
                        height: read_le16(bytes[7], bytes[8]),
                        color: None,
                    },
                })
            } else if bytes.len() == Self::DRAW_RECT_SIZE_3 {
                Some(CommandIn::DrawRect {
                    params: DrawRectParams {
                        x: read_le16(bytes[1], bytes[2]),
                        y: read_le16(bytes[3], bytes[4]),
                        width: 1,
                        height: 1,
                        color: Some(Color::new(bytes[5], bytes[6], bytes[7])),
                    },
                })
            } else if bytes.len() == Self::DRAW_RECT_SIZE_4 {
                Some(CommandIn::DrawRect {
                    params: DrawRectParams {
                        x: read_le16(bytes[1], bytes[2]),
                        y: read_le16(bytes[3], bytes[4]),
                        width: 1,
                        height: 1,
                        color: None,
                    },
                })
            } else {
                None
            }
        } else if command_byte == Self::DRAW_CHAR {
            if bytes.len() != Self::DRAW_CHAR_SIZE {
                return None;
            }
            Some(CommandIn::DrawChar {
                params: DrawCharParams {
                    c: bytes[1] as char,
                    x: read_le16(bytes[2], bytes[3]),
                    y: read_le16(bytes[4], bytes[5]),
                    color_fg: Color::new(bytes[6], bytes[7], bytes[8]),
                    color_bg: Color::new(bytes[9], bytes[10], bytes[11]),
                },
            })
        } else if command_byte == Self::DRAW_OSC {
            if bytes.len() < Self::DRAW_OSC_SIZE_MIN || bytes.len() > Self::DRAW_OSC_SIZE_MAX {
                return None;
            }
            Some(CommandIn::DrawOsc {
                params: DrawOscParams {
                    color: Color::new(bytes[1], bytes[2], bytes[3]),
                    waveform: suffix_vec(bytes, 4),
                },
            })
        } else if command_byte == Self::GET_KEY_PRESS {
            if bytes.len() != Self::KEY_PRESS_SIZE {
                return None;
            }
            let keystate = KeyState::new(bytes[1]);
            Some(CommandIn::GetKeyState { keystate })
        } else if command_byte == Self::GET_SYSTEM_INFO {
            if bytes.len() != Self::SYSTEM_INFO_SIZE {
                return None;
            }
            let model = HardwareType::from(bytes[1]);
            let font = FontType::from(&model, bytes[5]);
            let firmware = firmware_string(bytes[2], bytes[3], bytes[4]);
            Some(CommandIn::GetSystemInfo { info: SystemInfo { model, firmware, font } })
        } else {
            None
        }
    }
}

/// The documented decode behavior for the draw-rect tag, spelled out: each
/// of the four admitted lengths yields exactly the documented fields, and
/// every other length yields nothing.
pub proof fn lemma_draw_rect_decode(bytes: Seq<u8>)
    requires
        bytes.len() > 0,
        bytes[0] == CommandIn::DRAW_RECT,
    ensures
        bytes.len() == 12 ==> decode_spec(bytes) == Some(CommandModel::DrawRect {
            params: DrawRectParams {
                x: le16(bytes[1], bytes[2]),
                y: le16(bytes[3], bytes[4]),
                width: le16(bytes[5], bytes[6]),
                height: le16(bytes[7], bytes[8]),
                color: Some(Color { r: bytes[9], g: bytes[10], b: bytes[11] }),
            },
        }),
        bytes.len() == 9 ==> decode_spec(bytes) == Some(CommandModel::DrawRect {
            params: DrawRectParams {
                x: le16(bytes[1], bytes[2]),
                y: le16(bytes[3], bytes[4]),
                width: le16(bytes[5], bytes[6]),
                height: le16(bytes[7], bytes[8]),
                color: None,
            },
        }),
        bytes.len() == 8 ==> decode_spec(bytes) == Some(CommandModel::DrawRect {
            params: DrawRectParams {
                x: le16(bytes[1], bytes[2]),
                y: le16(bytes[3], bytes[4]),
                width: 1u16,
                height: 1u16,
                color: Some(Color { r: bytes[5], g: bytes[6], b: bytes[7] }),
            },
        }),
        bytes.len() == 5 ==> decode_spec(bytes) == Some(CommandModel::DrawRect {
            params: DrawRectParams {
                x: le16(bytes[1], bytes[2]),
                y: le16(bytes[3], bytes[4]),
                width: 1u16,
                height: 1u16,
                color: None,
            },
        }),
        bytes.len() != 12 && bytes.len() != 9 && bytes.len() != 8 && bytes.len() != 5
            ==> decode_spec(bytes) is None,
{
}

/// The commands a list of frames decodes to: frames that decode are kept,
/// in order; the rest are dropped.
pub open spec fn decoded_commands(frames: Seq<Seq<u8>>) -> Seq<CommandModel>
    decreases frames.len(),
{
    if frames.len() == 0 {
        Seq::empty()
    } else {
        let rest = decoded_commands(frames.drop_first());
        match decode_spec(frames[0]) {
            Some(c) => seq![c] + rest,
            None => rest,
        }
    }
}

pub proof fn lemma_decoded_snoc(frames: Seq<Seq<u8>>, f: Seq<u8>)
    ensures
        decoded_commands(frames.push(f)) == (match decode_spec(f) {
            Some(c) => decoded_commands(frames).push(c),
            None => decoded_commands(frames),
        }),
    decreases frames.len(),
{
    let fp = frames.push(f);
    if frames.len() == 0 {
        assert(fp[0] == f);
        assert(fp.drop_first() =~= Seq::<Seq<u8>>::empty());
        assert(decoded_commands(fp.drop_first()) == Seq::<CommandModel>::empty());
        match decode_spec(f) {
            Some(c) => {
                assert(decoded_commands(fp) =~= decoded_commands(frames).push(c));
            },
            None => {
                assert(decoded_commands(fp) =~= decoded_commands(frames));
            },
        }
    } else {
        assert(fp[0] == frames[0]);
        assert(fp.drop_first() =~= frames.drop_first().push(f));
        lemma_decoded_snoc(frames.drop_first(), f);
        match decode_spec(f) {
            Some(c) => {
                assert(decoded_commands(fp) =~= decoded_commands(frames).push(c));
            },
            None => {
                assert(decoded_commands(fp) =~= decoded_commands(frames));
            },
        }
    }
}

/// Commands sent from the host to the device.
#[derive(Clone, Copy, Debug, PartialEq, Eq, Structural)]
pub enum CommandOut {
    /// Sets the pressed state of the keys, as a bitfield.
    ControlKeys { keybits: u8 },
    /// Plays a note at a velocity.
    KeyJazz { note: u8, velocity: u8 },
    /// Tells the device to start sending display updates.
    EnableDisplay,
    /// Tells the device to redraw the entire display.
    ResetDisplay,
    /// Tells the device to stop sending display updates.
    DisableDisplay,
    /// Sets one color of the device's theme. Indices past the theme's last
    /// color are ignored by the device; setting a color also forces a full
    /// redraw.
    ThemeColor { index: u8, r: u8, g: u8, b: u8 },
    Ping,
}

impl CommandOut {
    /// ASCII `C`: the control-keys tag.
    pub const TAG_CONTROL_KEYS: u8 = 0x43;

    /// ASCII `K`: the note-trigger tag.
    pub const TAG_KEY_JAZZ: u8 = 0x4B;

    /// ASCII `E`: the enable-display tag.
    pub const TAG_ENABLE_DISPLAY: u8 = 0x45;

    /// ASCII `R`: the reset-display tag.
    pub const TAG_RESET_DISPLAY: u8 = 0x52;

    /// ASCII `D`: the disable-display tag.
    pub const TAG_DISABLE_DISPLAY: u8 = 0x44;

    /// ASCII `S`: the theme-color tag.
    pub const TAG_THEME_COLOR: u8 = 0x53;

    /// ASCII `X`: the ping tag.
    pub const TAG_PING: u8 = 0x58;

    /// The wire encoding: a one-character ASCII tag, then the command's
    /// fixed parameters in documented order.
    pub open spec fn spec_to_bytes(self) -> Seq<u8> {
        match self {
            CommandOut::ControlKeys { keybits } => seq![Self::TAG_CONTROL_KEYS, keybits],
            CommandOut::KeyJazz { note, velocity } => seq![Self::TAG_KEY_JAZZ, note, velocity],
            CommandOut::EnableDisplay => seq![Self::TAG_ENABLE_DISPLAY],
            CommandOut::ResetDisplay => seq![Self::TAG_RESET_DISPLAY],
            CommandOut::DisableDisplay => seq![Self::TAG_DISABLE_DISPLAY],
            CommandOut::ThemeColor { index, r, g, b } => seq![
                Self::TAG_THEME_COLOR,
                index,
                r,
                g,
                b,
            ],
            CommandOut::Ping => seq![Self::TAG_PING],
        }
    }

    pub fn to_bytes(&self) -> (r: Vec<u8>)
        ensures
            r@ == self.spec_to_bytes(),
    {
        let r = match self {
            CommandOut::ControlKeys { keybits } => vec![Self::TAG_CONTROL_KEYS, *keybits],
            CommandOut::KeyJazz { note, velocity } => vec![
                Self::TAG_KEY_JAZZ,
                *note,
                *velocity,
            ],
            CommandOut::EnableDisplay => vec![Self::TAG_ENABLE_DISPLAY],
            CommandOut::ResetDisplay => vec![Self::TAG_RESET_DISPLAY],
            CommandOut::DisableDisplay => vec![Self::TAG_DISABLE_DISPLAY],
            CommandOut::ThemeColor { index, r, g, b } => vec![
                Self::TAG_THEME_COLOR,
                *index,
                *r,
                *g,
                *b,
            ],
            CommandOut::Ping => vec![Self::TAG_PING],
        };
        proof {
            assert(r@ =~= self.spec_to_bytes());
        }
        r
    }
}

} // verus!
