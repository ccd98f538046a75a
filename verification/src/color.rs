//! The three-state ink color and its plain pixel encodings.

use vstd::prelude::*;

verus! {

/// The state of a pixel on the display: one of the three inks it can render.
///
/// A pixel is never anything but one of these three values; every encoding
/// the driver meets either collapses onto them by an explicit rule or is
/// rejected before it reaches this type.
#[derive(Clone, Copy, Debug, PartialEq, Eq, Structural)]
pub enum Color {
    Black,
    White,
    Red,
}

/// The state of a two-state monochrome pixel: the ink is either laid down
/// (`On`) or absent (`Off`).
#[derive(Clone, Copy, Debug, PartialEq, Eq, Structural)]
pub enum BinaryPixelState {
    On,
    Off,
}

impl Default for Color {
    /// A blank, unprinted page is white.
    fn default() -> (c: Color)
        ensures
            c == Color::White,
    {
        Color::White
    }
}

impl Color {
    /// Decodes one byte of the display's closed byte protocol.
    ///
    /// The protocol knows exactly three values; any other byte marks
    /// upstream corruption and is refused by the precondition, so a caller
    /// must check the byte before decoding it.
    pub fn from_byte(value: u8) -> (c: Color)
        requires
            value <= 2,
        ensures
            value == 0 ==> c == Color::Black,
            value == 1 ==> c == Color::White,
            value == 2 ==> c == Color::Red,
    {
        match value {
            0 => Color::Black,
            1 => Color::White,
            _ => Color::Red,
        }
    }

    /// Reads a single raw pixel bit: zero is black, anything else is white.
    ///
    /// This mapping is deliberately liberal and never yields red; it mirrors
    /// the raw single-bit pixel encoding, which has no red representation.
    pub fn from_raw_single_bit(bit: u8) -> (c: Color)
        ensures
            bit == 0 ==> c == Color::Black,
            bit != 0 ==> c == Color::White,
    {
        if bit == 0 {
            Color::Black
        } else {
            Color::White
        }
    }

    /// Maps a two-state monochrome pixel onto the inks: `On` prints black,
    /// `Off` leaves the white page. This mapping is total and never yields
    /// red.
    pub fn from_binary(pixel: BinaryPixelState) -> (c: Color)
        ensures
            pixel == BinaryPixelState::On ==> c == Color::Black,
            pixel == BinaryPixelState::Off ==> c == Color::White,
    {
        match pixel {
            BinaryPixelState::On => Color::Black,
            BinaryPixelState::Off => Color::White,
        }
    }
}

/// Equality on `Color` is reflexive and tells the three ink states apart.
pub proof fn lemma_color_equality(c: Color)
    ensures
        c == c,
        Color::Black != Color::White,
        Color::White != Color::Red,
        Color::Red != Color::Black,
{
}

} // verus!
