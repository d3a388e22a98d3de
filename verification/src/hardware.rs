//! Hardware models of the device, the fonts each model can select, and the
//! USB identifiers used to recognize a device among serial ports.

use vstd::prelude::*;

verus! {

/// USB vendor identifier of the device.
pub const M8_VID: u16 = 0x16C0;

/// USB product identifier of the device in stereo mode.
pub const M8_PID_STEREO: u16 = 0x048A;

/// USB product identifier of the device in multichannel mode.
pub const M8_PID_MULTICHANNEL: u16 = 0x048B;

/// Number of colors in the device's display theme.
pub const NUM_THEME_COLORS: usize = 13;

/// The hardware model, as reported in the system-info command's model byte.
#[derive(Clone, Debug, PartialEq, Eq, Structural)]
pub enum HardwareType {
    ModelHeadless,
    ModelBeta,
    Model01,
    Model02,
}

impl HardwareType {
    /// The model a system-info model byte names; unknown bytes fall back to
    /// the headless model.
    pub open spec fn spec_from(byte: u8) -> HardwareType {
        if byte == 0x00 {
            HardwareType::ModelHeadless
        } else if byte == 0x01 {
            HardwareType::ModelBeta
        } else if byte == 0x02 {
            HardwareType::Model01
        } else if byte == 0x03 {
            HardwareType::Model02
        } else {
            HardwareType::ModelHeadless
        }
    }

    pub fn from(byte: u8) -> (r: HardwareType)
        ensures
            r == HardwareType::spec_from(byte),
    {
        match byte {
            0x00 => HardwareType::ModelHeadless,
            0x01 => HardwareType::ModelBeta,
            0x02 => HardwareType::Model01,
            0x03 => HardwareType::Model02,
            _ => HardwareType::ModelHeadless,
        }
    }

    /// Display size in pixels, width then height.
    pub fn screen_size(&self) -> (r: (u16, u16))
        ensures
            *self == HardwareType::Model02 ==> r == (480u16, 320u16),
            *self != HardwareType::Model02 ==> r == (320u16, 240u16),
    {
        match self {
            HardwareType::Model02 => (480, 320),
            _ => (320, 240),
        }
    }

    pub fn name(&self) -> (r: String)
        ensures
            *self == HardwareType::ModelHeadless ==> r@ == "Headless"@,
            *self == HardwareType::ModelBeta ==> r@ == "Beta"@,
            *self == HardwareType::Model01 ==> r@ == "Model:01"@,
            *self == HardwareType::Model02 ==> r@ == "Model:02"@,
    {
        match self {
            HardwareType::ModelHeadless => "Headless".to_owned(),
            HardwareType::ModelBeta => "Beta".to_owned(),
            HardwareType::Model01 => "Model:01".to_owned(),
            HardwareType::Model02 => "Model:02".to_owned(),
        }
    }
}

impl Default for HardwareType {
    fn default() -> (r: HardwareType)
        ensures
            r == HardwareType::Model01,
    {
        HardwareType::Model01
    }
}

/// The font the device asks the host to render with. Which font a
/// system-info font-selector byte names depends on the hardware model.
#[derive(Clone, Debug, PartialEq, Eq, Structural, Hash)]
pub enum FontType {
    Model01Normal,
    Model01Big,
    Model02Normal,
    Model02Bold,
    Model02Huge,
}

impl FontType {
    /// The font a system-info font byte selects on the given model; unknown
    /// bytes fall back to the model's normal font.
    pub open spec fn spec_from(model: HardwareType, byte: u8) -> FontType {
        if model == HardwareType::Model02 {
            if byte == 0x00 {
                FontType::Model02Normal
            } else if byte == 0x01 {
                FontType::Model02Bold
            } else if byte == 0x02 {
                FontType::Model02Huge
            } else {
                FontType::Model02Normal
            }
        } else {
            if byte == 0x00 {
                FontType::Model01Normal
            } else if byte == 0x01 {
                FontType::Model01Big
            } else {
                FontType::Model01Normal
            }
        }
    }

    pub fn from(model: &HardwareType, byte: u8) -> (r: FontType)
        ensures
            r == FontType::spec_from(*model, byte),
    {
        match model {
            HardwareType::Model02 => match byte {
                0x00 => FontType::Model02Normal,
                0x01 => FontType::Model02Bold,
                0x02 => FontType::Model02Huge,
                _ => FontType::Model02Normal,
            },
            _ => match byte {
                0x00 => FontType::Model01Normal,
                0x01 => FontType::Model01Big,
                _ => FontType::Model01Normal,
            },
        }
    }

    /// The font's rendering metrics.
    pub fn get_data(&self) -> (f: Font)
        ensures
            f == self.spec_data(),
    {
        match self {
            FontType::Model01Normal => Font {
                char_width: 5,
                char_height: 7,
                draw_y_offset: 0,
                char_y_offset: 3,
                waveform_max: 24,
            },
            FontType::Model01Big => Font {
                char_width: 8,
                char_height: 9,
                draw_y_offset: -40i16,
                char_y_offset: 4,
                waveform_max: 22,
            },
            FontType::Model02Normal => Font {
                char_width: 9,
                char_height: 9,
                draw_y_offset: -2i16,
                char_y_offset: 5,
                waveform_max: 38,
            },
            FontType::Model02Bold => Font {
                char_width: 10,
                char_height: 10,
                draw_y_offset: -2i16,
                char_y_offset: 4,
                waveform_max: 38,
            },
            FontType::Model02Huge => Font {
                char_width: 12,
                char_height: 12,
                draw_y_offset: -54i16,
                char_y_offset: 4,
                waveform_max: 24,
            },
        }
    }

    pub open spec fn spec_data(self) -> Font {
        match self {
            FontType::Model01Normal => Font {
                char_width: 5,
                char_height: 7,
                draw_y_offset: 0,
                char_y_offset: 3,
                waveform_max: 24,
            },
            FontType::Model01Big => Font {
                char_width: 8,
                char_height: 9,
                draw_y_offset: -40i16,
                char_y_offset: 4,
                waveform_max: 22,
            },
            FontType::Model02Normal => Font {
                char_width: 9,
                char_height: 9,
                draw_y_offset: -2i16,
                char_y_offset: 5,
                waveform_max: 38,
            },
            FontType::Model02Bold => Font {
                char_width: 10,
                char_height: 10,
                draw_y_offset: -2i16,
                char_y_offset: 4,
                waveform_max: 38,
            },
            FontType::Model02Huge => Font {
                char_width: 12,
                char_height: 12,
                draw_y_offset: -54i16,
                char_y_offset: 4,
                waveform_max: 24,
            },
        }
    }
}

/// Rendering metrics of one font. The glyph bitmap itself is an asset of
/// the rendering layer, not of this protocol core, and is not carried here.
#[derive(Clone, Copy, Debug, PartialEq, Eq, Structural)]
pub struct Font {
    /// Width of each character in pixels.
    pub char_width: u8,
    /// Height of each character in pixels.
    pub char_height: u8,
    /// Y offset applied to all draw calls.
    pub draw_y_offset: i16,
    /// Extra y offset applied to text draw calls.
    pub char_y_offset: i16,
    /// Maximum height of the oscilloscope waveform.
    pub waveform_max: u8,
}

} // verus!
