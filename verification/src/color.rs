//! The palette and its native four-channel byte representation.
//!
//! The native layer expects every color as four bytes (red, green, blue,
//! alpha). The named variants map to a fixed byte table — the one piece of
//! wire format in this crate — and the custom variant carries its four
//! channels through unchanged.

use vstd::prelude::*;

verus! {

/// The native layer's four-channel byte representation of a color.
#[derive(Clone, Copy, PartialEq, Eq, Structural, Debug)]
pub struct Rgba {
    pub r: u8,
    pub g: u8,
    pub b: u8,
    pub a: u8,
}

/// A drawable color: one of the named palette entries, or four explicit
/// channels.
#[derive(Clone, Copy, PartialEq, Eq, Structural, Debug)]
pub enum Color {
    LightGray,
    Gray,
    DarkGray,
    Yellow,
    Gold,
    Orange,
    Pink,
    Red,
    Maroon,
    Green,
    Lime,
    DarkGreen,
    SkyBlue,
    Blue,
    DarkBlue,
    Purple,
    Violet,
    DarkPurple,
    Beige,
    Brown,
    DarkBrown,
    White,
    Black,
    Blank,
    Magenta,
    RayWhite,
    Custom(u8, u8, u8, u8),
}

/// The fixed byte table: what each color is on the native side.
pub open spec fn rgba_of(c: Color) -> Rgba {
    match c {
        Color::LightGray => Rgba { r: 200, g: 200, b: 200, a: 255 },
        Color::Gray => Rgba { r: 130, g: 130, b: 130, a: 255 },
        Color::DarkGray => Rgba { r: 80, g: 80, b: 80, a: 255 },
        Color::Yellow => Rgba { r: 253, g: 249, b: 0, a: 255 },
        Color::Gold => Rgba { r: 255, g: 203, b: 0, a: 255 },
        Color::Orange => Rgba { r: 255, g: 161, b: 0, a: 255 },
        Color::Pink => Rgba { r: 255, g: 109, b: 194, a: 255 },
        Color::Red => Rgba { r: 230, g: 41, b: 55, a: 255 },
        Color::Maroon => Rgba { r: 190, g: 33, b: 55, a: 255 },
        Color::Green => Rgba { r: 0, g: 228, b: 48, a: 255 },
        Color::Lime => Rgba { r: 0, g: 158, b: 47, a: 255 },
        Color::DarkGreen => Rgba { r: 0, g: 117, b: 44, a: 255 },
        Color::SkyBlue => Rgba { r: 102, g: 191, b: 255, a: 255 },
        Color::Blue => Rgba { r: 0, g: 121, b: 241, a: 255 },
        Color::DarkBlue => Rgba { r: 0, g: 82, b: 172, a: 255 },
        Color::Purple => Rgba { r: 200, g: 122, b: 255, a: 255 },
        Color::Violet => Rgba { r: 135, g: 60, b: 190, a: 255 },
        Color::DarkPurple => Rgba { r: 112, g: 31, b: 126, a: 255 },
        Color::Beige => Rgba { r: 211, g: 176, b: 131, a: 255 },
        Color::Brown => Rgba { r: 127, g: 106, b: 79, a: 255 },
        Color::DarkBrown => Rgba { r: 76, g: 63, b: 47, a: 255 },
        Color::White => Rgba { r: 255, g: 255, b: 255, a: 255 },
        Color::Black => Rgba { r: 0, g: 0, b: 0, a: 255 },
        Color::Blank => Rgba { r: 0, g: 0, b: 0, a: 0 },
        Color::Magenta => Rgba { r: 255, g: 0, b: 255, a: 255 },
        Color::RayWhite => Rgba { r: 245, g: 245, b: 245, a: 255 },
        Color::Custom(r, g, b, a) => Rgba { r, g, b, a },
    }
}

impl Color {
    /// Converts this color to the native four-channel byte form, exactly as
    /// the table in [`rgba_of`] gives it; a custom color's channels pass
    /// through unchanged.
    pub fn rgba(&self) -> (c: Rgba)
        ensures
            c == rgba_of(*self),
    {
        match self {
            Color::LightGray => Rgba { r: 200, g: 200, b: 200, a: 255 },
            Color::Gray => Rgba { r: 130, g: 130, b: 130, a: 255 },
            Color::DarkGray => Rgba { r: 80, g: 80, b: 80, a: 255 },
            Color::Yellow => Rgba { r: 253, g: 249, b: 0, a: 255 },
            Color::Gold => Rgba { r: 255, g: 203, b: 0, a: 255 },
            Color::Orange => Rgba { r: 255, g: 161, b: 0, a: 255 },
            Color::Pink => Rgba { r: 255, g: 109, b: 194, a: 255 },
            Color::Red => Rgba { r: 230, g: 41, b: 55, a: 255 },
            Color::Maroon => Rgba { r: 190, g: 33, b: 55, a: 255 },
            Color::Green => Rgba { r: 0, g: 228, b: 48, a: 255 },
            Color::Lime => Rgba { r: 0, g: 158, b: 47, a: 255 },
            Color::DarkGreen => Rgba { r: 0, g: 117, b: 44, a: 255 },
            Color::SkyBlue => Rgba { r: 102, g: 191, b: 255, a: 255 },
            Color::Blue => Rgba { r: 0, g: 121, b: 241, a: 255 },
            Color::DarkBlue => Rgba { r: 0, g: 82, b: 172, a: 255 },
            Color::Purple => Rgba { r: 200, g: 122, b: 255, a: 255 },
            Color::Violet => Rgba { r: 135, g: 60, b: 190, a: 255 },
            Color::DarkPurple => Rgba { r: 112, g: 31, b: 126, a: 255 },
            Color::Beige => Rgba { r: 211, g: 176, b: 131, a: 255 },
            Color::Brown => Rgba { r: 127, g: 106, b: 79, a: 255 },
            Color::DarkBrown => Rgba { r: 76, g: 63, b: 47, a: 255 },
            Color::White => Rgba { r: 255, g: 255, b: 255, a: 255 },
            Color::Black => Rgba { r: 0, g: 0, b: 0, a: 255 },
            Color::Blank => Rgba { r: 0, g: 0, b: 0, a: 0 },
            Color::Magenta => Rgba { r: 255, g: 0, b: 255, a: 255 },
            Color::RayWhite => Rgba { r: 245, g: 245, b: 245, a: 255 },
            Color::Custom(r, g, b, a) => Rgba { r: *r, g: *g, b: *b, a: *a },
        }
    }
}

} // verus!
