//! Colours and their packed form.

use vstd::prelude::*;

verus! {

/// An RGBA colour, one byte per channel.
#[derive(Clone, Copy, Debug, PartialEq, Eq, Structural)]
pub struct Color {
    pub r: u8,
    pub g: u8,
    pub b: u8,
    pub a: u8,
}

impl Color {
    pub fn new(r: u8, g: u8, b: u8, a: u8) -> (c: Color)
        ensures
            c == (Color { r, g, b, a }),
    {
        Color { r, g, b, a }
    }

    /// The colour as one 32-bit word, alpha in the highest byte, then blue,
    /// green, and red in the lowest: `0xAABBGGRR`.
    pub open spec fn packed(self) -> u32 {
        (self.r + 0x100 * self.g + 0x1_0000 * self.b + 0x100_0000 * self.a) as u32
    }

    /// Packs the colour into the word that every vertex carries.
    pub fn as_abgr(&self) -> (word: u32)
        ensures
            word == self.packed(),
    {
        let r: u32 = self.r as u32;
        let g: u32 = self.g as u32;
        let b: u32 = self.b as u32;
        let a: u32 = self.a as u32;
        assert((a << 24 | b << 16 | g << 8 | r) == r + 0x100 * g + 0x1_0000 * b + 0x100_0000 * a)
            by (bit_vector)
            requires
                r < 0x100,
                g < 0x100,
                b < 0x100,
                a < 0x100,
        ;
        a << 24 | b << 16 | g << 8 | r
    }
}

} // verus!
