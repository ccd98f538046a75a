//! RGB pixel values of several bit depths, and the lossy bucketing of RGB
//! colors onto the three inks.
//!
//! The display renders only black, white and red, so a conversion from an
//! RGB color space keeps the two exact extremes and collapses everything
//! else onto red, the one remaining ink. This is a fixed bucketing rule,
//! not a perceptual nearest-color search.

use vstd::prelude::*;
use crate::color::Color;

verus! {

/// A 24-bit RGB pixel: three 8-bit channels.
#[derive(Clone, Copy, Debug, PartialEq, Eq, Structural)]
pub struct Rgb888 {
    pub r: u8,
    pub g: u8,
    pub b: u8,
}

impl Rgb888 {
    /// The canonical pure white of the 24-bit space.
    pub open spec fn spec_white() -> Rgb888 {
        Rgb888 { r: 255, g: 255, b: 255 }
    }

    /// The canonical pure black of the 24-bit space.
    pub open spec fn spec_black() -> Rgb888 {
        Rgb888 { r: 0, g: 0, b: 0 }
    }

    /// The canonical red of the 24-bit space.
    pub open spec fn spec_red() -> Rgb888 {
        Rgb888 { r: 255, g: 0, b: 0 }
    }
}

impl Color {
    /// The bucketing rule for 24-bit RGB: the exact white triple is white,
    /// the exact black triple is black, and every other color is red.
    pub open spec fn spec_from_rgb888(p: Rgb888) -> Color {
        if p == Rgb888::spec_white() {
            Color::White
        } else if p == Rgb888::spec_black() {
            Color::Black
        } else {
            Color::Red
        }
    }

    /// The canonical 24-bit RGB value of each ink.
    pub open spec fn spec_to_rgb888(c: Color) -> Rgb888 {
        match c {
            Color::White => Rgb888::spec_white(),
            Color::Black => Rgb888::spec_black(),
            Color::Red => Rgb888::spec_red(),
        }
    }

    /// Buckets a 24-bit RGB pixel onto the three inks.
    pub fn from_rgb888(p: Rgb888) -> (c: Color)
        ensures
            c == Color::spec_from_rgb888(p),
    {
        if p.r == 255 && p.g == 255 && p.b == 255 {
            Color::White
        } else if p.r == 0 && p.g == 0 && p.b == 0 {
            Color::Black
        } else {
            Color::Red
        }
    }

    /// Renders an ink as its canonical 24-bit RGB value.
    pub fn to_rgb888(self) -> (p: Rgb888)
        ensures
            p == Color::spec_to_rgb888(self),
    {
        match self {
            Color::White => Rgb888 { r: 255, g: 255, b: 255 },
            Color::Black => Rgb888 { r: 0, g: 0, b: 0 },
            Color::Red => Rgb888 { r: 255, g: 0, b: 0 },
        }
    }
}

/// Rendering an ink as 24-bit RGB and bucketing the result back returns the
/// same ink: the canonical red is neither pure white nor pure black, so all
/// three inks round-trip.
pub proof fn lemma_rgb888_round_trip(c: Color)
    ensures
        Color::spec_from_rgb888(Color::spec_to_rgb888(c)) == c,
{
}

/// Every 24-bit RGB pixel that is neither the exact white triple nor the
/// exact black triple buckets onto red.
pub proof fn lemma_rgb888_bucketing(p: Rgb888)
    requires
        p != Rgb888::spec_white(),
        p != Rgb888::spec_black(),
    ensures
        Color::spec_from_rgb888(p) == Color::Red,
{
}

/// A 16-bit RGB pixel, unpacked: a 5-bit red channel, a 6-bit green channel
/// and a 5-bit blue channel.
#[derive(Clone, Copy, Debug, PartialEq, Eq, Structural)]
pub struct Rgb565 {
    pub r: u8,
    pub g: u8,
    pub b: u8,
}

impl Rgb565 {
    /// Each channel fits its bit width in the 5-6-5 packing.
    pub open spec fn wf(self) -> bool {
        self.r <= 31 && self.g <= 63 && self.b <= 31
    }

    /// The canonical pure white of the 5-6-5 space.
    pub open spec fn spec_white() -> Rgb565 {
        Rgb565 { r: 31, g: 63, b: 31 }
    }

    /// The canonical pure black of the 5-6-5 space.
    pub open spec fn spec_black() -> Rgb565 {
        Rgb565 { r: 0, g: 0, b: 0 }
    }

    /// The canonical red of the 5-6-5 space.
    pub open spec fn spec_red() -> Rgb565 {
        Rgb565 { r: 31, g: 0, b: 0 }
    }
}

/// A 15-bit RGB pixel, unpacked: three 5-bit channels.
#[derive(Clone, Copy, Debug, PartialEq, Eq, Structural)]
pub struct Rgb555 {
    pub r: u8,
    pub g: u8,
    pub b: u8,
}

impl Rgb555 {
    /// Each channel fits its bit width in the 5-5-5 packing.
    pub open spec fn wf(self) -> bool {
        self.r <= 31 && self.g <= 31 && self.b <= 31
    }

    /// The canonical pure white of the 5-5-5 space.
    pub open spec fn spec_white() -> Rgb555 {
        Rgb555 { r: 31, g: 31, b: 31 }
    }

    /// The canonical pure black of the 5-5-5 space.
    pub open spec fn spec_black() -> Rgb555 {
        Rgb555 { r: 0, g: 0, b: 0 }
    }

    /// The canonical red of the 5-5-5 space.
    pub open spec fn spec_red() -> Rgb555 {
        Rgb555 { r: 31, g: 0, b: 0 }
    }
}

impl Color {
    /// The bucketing rule for 5-6-5 RGB: the exact white value is white, the
    /// exact black value is black, and every other color is red.
    pub open spec fn spec_from_rgb565(p: Rgb565) -> Color {
        if p == Rgb565::spec_white() {
            Color::White
        } else if p == Rgb565::spec_black() {
            Color::Black
        } else {
            Color::Red
        }
    }

    /// The canonical 5-6-5 RGB value of each ink.
    pub open spec fn spec_to_rgb565(c: Color) -> Rgb565 {
        match c {
            Color::White => Rgb565::spec_white(),
            Color::Black => Rgb565::spec_black(),
            Color::Red => Rgb565::spec_red(),
        }
    }

    /// Buckets a 5-6-5 RGB pixel onto the three inks.
    pub fn from_rgb565(p: Rgb565) -> (c: Color)
        requires
            p.wf(),
        ensures
            c == Color::spec_from_rgb565(p),
    {
        if p.r == 31 && p.g == 63 && p.b == 31 {
            Color::White
        } else if p.r == 0 && p.g == 0 && p.b == 0 {
            Color::Black
        } else {
            Color::Red
        }
    }

    /// Renders an ink as its canonical 5-6-5 RGB value.
    pub fn to_rgb565(self) -> (p: Rgb565)
        ensures
            p == Color::spec_to_rgb565(self),
            p.wf(),
    {
        match self {
            Color::White => Rgb565 { r: 31, g: 63, b: 31 },
            Color::Black => Rgb565 { r: 0, g: 0, b: 0 },
            Color::Red => Rgb565 { r: 31, g: 0, b: 0 },
        }
    }

    /// The bucketing rule for 5-5-5 RGB: the exact white value is white, the
    /// exact black value is black, and every other color is red.
    pub open spec fn spec_from_rgb555(p: Rgb555) -> Color {
        if p == Rgb555::spec_white() {
            Color::White
        } else if p == Rgb555::spec_black() {
            Color::Black
        } else {
            Color::Red
        }
    }

    /// The canonical 5-5-5 RGB value of each ink.
    pub open spec fn spec_to_rgb555(c: Color) -> Rgb555 {
        match c {
            Color::White => Rgb555::spec_white(),
            Color::Black => Rgb555::spec_black(),
            Color::Red => Rgb555::spec_red(),
        }
    }

    /// Buckets a 5-5-5 RGB pixel onto the three inks.
    pub fn from_rgb555(p: Rgb555) -> (c: Color)
        requires
            p.wf(),
        ensures
            c == Color::spec_from_rgb555(p),
    {
        if p.r == 31 && p.g == 31 && p.b == 31 {
            Color::White
        } else if p.r == 0 && p.g == 0 && p.b == 0 {
            Color::Black
        } else {
            Color::Red
        }
    }

    /// Renders an ink as its canonical 5-5-5 RGB value.
    pub fn to_rgb555(self) -> (p: Rgb555)
        ensures
            p == Color::spec_to_rgb555(self),
            p.wf(),
    {
        match self {
            Color::White => Rgb555 { r: 31, g: 31, b: 31 },
            Color::Black => Rgb555 { r: 0, g: 0, b: 0 },
            Color::Red => Rgb555 { r: 31, g: 0, b: 0 },
        }
    }
}

/// Rendering an ink as 5-6-5 RGB and bucketing the result back returns the
/// same ink: the canonical red is neither pure white nor pure black, so all
/// three inks round-trip.
pub proof fn lemma_rgb565_round_trip(c: Color)
    ensures
        Color::spec_from_rgb565(Color::spec_to_rgb565(c)) == c,
{
}

/// Every well-formed 5-6-5 RGB pixel that is neither the exact white value
/// nor the exact black value buckets onto red.
pub proof fn lemma_rgb565_bucketing(p: Rgb565)
    requires
        p.wf(),
        p != Rgb565::spec_white(),
        p != Rgb565::spec_black(),
    ensures
        Color::spec_from_rgb565(p) == Color::Red,
{
}

/// Rendering an ink as 5-5-5 RGB and bucketing the result back returns the
/// same ink: the canonical red is neither pure white nor pure black, so all
/// three inks round-trip.
pub proof fn lemma_rgb555_round_trip(c: Color)
    ensures
        Color::spec_from_rgb555(Color::spec_to_rgb555(c)) == c,
{
}

/// Every well-formed 5-5-5 RGB pixel that is neither the exact white value
/// nor the exact black value buckets onto red.
pub proof fn lemma_rgb555_bucketing(p: Rgb555)
    requires
        p.wf(),
        p != Rgb555::spec_white(),
        p != Rgb555::spec_black(),
    ensures
        Color::spec_from_rgb555(p) == Color::Red,
{
}

} // verus!
