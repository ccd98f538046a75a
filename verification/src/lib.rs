//! Pixel color model for a three-ink electrophoretic display.
//!
//! The display can render exactly three ink states: black, white and red.
//! This crate defines the [`color::Color`] value type together with the
//! conversions between that type and the pixel encodings a display driver
//! meets: the closed byte protocol, single-bit raw pixels, two-state
//! monochrome pixels, and RGB triples of several bit depths.

pub mod color;
pub mod rgb;
