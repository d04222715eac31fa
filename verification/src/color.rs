//! Pixel colours and display orientation.

use vstd::prelude::*;

verus! {

/// The two colours of a one-bit panel.
#[derive(Clone, Copy, Debug, PartialEq, Eq, Structural)]
pub enum Color {
    Black,
    White,
}

impl Color {
    /// A byte of eight pixels of this colour: `0x00` for black, `0xff` for
    /// white.
    pub open spec fn byte_value(self) -> u8 {
        match self {
            Color::Black => 0x00u8,
            Color::White => 0xffu8,
        }
    }

    /// A byte of eight pixels of this colour.
    pub fn get_byte_value(self) -> (byte: u8)
        ensures
            byte == self.byte_value(),
    {
        match self {
            Color::Black => 0x00,
            Color::White => 0xff,
        }
    }
}

/// Orientation of the logical coordinate system relative to the bitmap.
#[derive(Clone, Copy, Debug, PartialEq, Eq, Structural)]
pub enum Rotation {
    Rotate0,
    Rotate90,
    Rotate180,
    Rotate270,
}

} // verus!
