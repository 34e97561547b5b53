//! Colors with an alpha channel.

use vstd::prelude::*;

verus! {

/// A color as red, green, blue and alpha, each from 0 to 255. An alpha of
/// 255 is fully opaque.
pub struct Color {
    pub r: u8,
    pub g: u8,
    pub b: u8,
    pub a: u8,
}

impl From<(u8, u8, u8)> for Color {
    /// The opaque color with the given red, green and blue.
    fn from(rgb: (u8, u8, u8)) -> (c: Color) {
        Color { r: rgb.0, g: rgb.1, b: rgb.2, a: 0xff }
    }
}

impl vstd::std_specs::convert::FromSpecImpl<(u8, u8, u8)> for Color {
    open spec fn obeys_from_spec() -> bool {
        true
    }

    open spec fn from_spec(rgb: (u8, u8, u8)) -> Color {
        Color { r: rgb.0, g: rgb.1, b: rgb.2, a: 0xff }
    }
}

impl From<(u8, u8, u8, u8)> for Color {
    /// The color with the given red, green, blue and alpha.
    fn from(rgba: (u8, u8, u8, u8)) -> (c: Color) {
        Color { r: rgba.0, g: rgba.1, b: rgba.2, a: rgba.3 }
    }
}

impl vstd::std_specs::convert::FromSpecImpl<(u8, u8, u8, u8)> for Color {
    open spec fn obeys_from_spec() -> bool {
        true
    }

    open spec fn from_spec(rgba: (u8, u8, u8, u8)) -> Color {
        Color { r: rgba.0, g: rgba.1, b: rgba.2, a: rgba.3 }
    }
}

} // verus!
