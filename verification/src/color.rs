//! Eight-bit RGBA colors.

use vstd::prelude::*;

verus! {

/// A color with red, green, blue and alpha channels of eight bits each.
#[derive(Debug, Clone, Copy, PartialEq, Eq, Structural, PartialOrd, Ord, Hash)]
pub struct BColor {
    pub r: u8,
    pub g: u8,
    pub b: u8,
    pub a: u8,
}

impl BColor {
    /// Constructs a color from its four channels.
    pub fn new(r: u8, g: u8, b: u8, a: u8) -> (c: Self)
        ensures
            c == (BColor { r, g, b, a }),
    {
        BColor { r, g, b, a }
    }

    /// The channels as an array, in the order red, green, blue, alpha.
    pub fn to_u8(&self) -> (arr: [u8; 4])
        ensures
            arr@ == seq![self.r, self.g, self.b, self.a],
    {
        [self.r, self.g, self.b, self.a]
    }

    /// An opaque gray whose three color channels all equal `val`.
    pub fn gray(val: u8) -> (c: Self)
        ensures
            c == (BColor { r: val, g: val, b: val, a: 255 }),
    {
        Self::new(val, val, val, 255)
    }
}

} // verus!
