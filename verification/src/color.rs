//! Colors as the exact 8-bit RGBA components they were built from.

use vstd::prelude::*;

verus! {

/// An RGBA color, held as the four 8-bit components it was built from.
///
/// The rendering layer normalizes each component to a 0..1 float when it
/// hands vertices to the GPU; the core keeps the exact bytes so that every
/// statement about a color is a statement about plain integers.
#[derive(Clone, Copy, PartialEq, Eq, Structural, Debug)]
pub struct Color {
    pub r: u8,
    pub g: u8,
    pub b: u8,
    pub a: u8,
}

impl Color {
    /// Builds a color from 8-bit red, green, blue and alpha components.
    pub fn from_rgba8(r: u8, g: u8, b: u8, a: u8) -> (c: Color)
        ensures
            c == (Color { r, g, b, a }),
    {
        Color { r, g, b, a }
    }
}

} // verus!
