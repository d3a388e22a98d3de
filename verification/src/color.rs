//! An RGB color as the device sends it: one byte per channel.

use vstd::prelude::*;

verus! {

#[derive(Clone, Debug, PartialEq, Eq, Structural)]
pub struct Color {
    pub r: u8,
    pub g: u8,
    pub b: u8,
}

impl Color {
    pub fn new(r: u8, g: u8, b: u8) -> (c: Color)
        ensures
            c == (Color { r, g, b }),
    {
        Color { r, g, b }
    }
}

impl Default for Color {
    /// Black.
    fn default() -> (c: Color)
        ensures
            c == (Color { r: 0u8, g: 0u8, b: 0u8 }),
    {
        Color { r: 0, g: 0, b: 0 }
    }
}

} // verus!
