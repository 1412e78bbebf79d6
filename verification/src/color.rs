//! Colors as the coprocessor's vertex format carries them: four 8-bit
//! channels, red, green, blue and alpha.

use vstd::prelude::*;

verus! {

/// A 4-channel (R, G, B, A) 8-bit color value.
#[derive(Clone, Copy, Debug, PartialEq, Eq, Structural)]
pub struct Color {
    pub r: u8,
    pub g: u8,
    pub b: u8,
    pub a: u8,
}

impl Color {
    /// Builds a color from all four channels.
    pub fn new(r: u8, g: u8, b: u8, a: u8) -> (c: Color)
        ensures
            c == (Color { r, g, b, a }),
    {
        Color { r, g, b, a }
    }

    /// Builds a color from the three color channels alone; conversion from a
    /// 3-channel color implies full opacity.
    pub fn rgb(r: u8, g: u8, b: u8) -> (c: Color)
        ensures
            c == (Color { r, g, b, a: 255u8 }),
    {
        Color { r, g, b, a: 255 }
    }
}

} // verus!
