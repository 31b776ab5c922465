//! The color palette of the text grid and the packed attribute byte.
//!
//! A cell's attribute byte holds the background palette index in its high
//! nibble and the foreground index in its low nibble.

use vstd::prelude::*;

verus! {

/// One of the sixteen fixed palette colors. The palette index of a variant is
/// given by [`color_index`].
#[derive(Clone, Copy, PartialEq, Eq, Debug)]
pub enum Color {
    Black,
    Blue,
    Green,
    Cyan,
    Red,
    Magenta,
    Brown,
    LightGray,
    DarkGray,
    LightBlue,
    LightGreen,
    LightCyan,
    LightRed,
    Pink,
    Yellow,
    White,
}

/// The palette index of a color, in `[0, 16)`.
pub open spec fn color_index(c: Color) -> u8 {
    match c {
        Color::Black => 0,
        Color::Blue => 1,
        Color::Green => 2,
        Color::Cyan => 3,
        Color::Red => 4,
        Color::Magenta => 5,
        Color::Brown => 6,
        Color::LightGray => 7,
        Color::DarkGray => 8,
        Color::LightBlue => 9,
        Color::LightGreen => 10,
        Color::LightCyan => 11,
        Color::LightRed => 12,
        Color::Pink => 13,
        Color::Yellow => 14,
        Color::White => 15,
    }
}

impl Color {
    /// The palette index of this color.
    pub fn index(self) -> (i: u8)
        ensures
            i == color_index(self),
            i < 16,
    {
        match self {
            Color::Black => 0,
            Color::Blue => 1,
            Color::Green => 2,
            Color::Cyan => 3,
            Color::Red => 4,
            Color::Magenta => 5,
            Color::Brown => 6,
            Color::LightGray => 7,
            Color::DarkGray => 8,
            Color::LightBlue => 9,
            Color::LightGreen => 10,
            Color::LightCyan => 11,
            Color::LightRed => 12,
            Color::Pink => 13,
            Color::Yellow => 14,
            Color::White => 15,
        }
    }
}

/// A packed attribute byte: background palette index in the high nibble,
/// foreground index in the low nibble.
#[derive(Clone, Copy, PartialEq, Eq, Debug, Structural)]
pub struct ColorCode(pub u8);

impl ColorCode {
    /// Packs a foreground/background pair into one attribute byte:
    /// sixteen times the background index plus the foreground index.
    pub fn new(foreground: Color, background: Color) -> (cc: ColorCode)
        ensures
            cc.0 == color_index(background) * 16 + color_index(foreground),
    {
        ColorCode(background.index() * 16 + foreground.index())
    }
}

} // verus!
