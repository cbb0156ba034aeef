//! 24-bit RGB colours and their packed form.

use vstd::prelude::*;

verus! {

/// A 24-bit colour, one byte per channel.
#[derive(Clone, Copy, Debug, PartialEq, Eq, Structural)]
pub struct Color {
    pub red: u8,
    pub green: u8,
    pub blue: u8,
}

/// The packed form of a colour: red in the low byte, green in the middle
/// byte, blue in the high byte, the top eight bits zero.
pub open spec fn packed_of(c: Color) -> u32 {
    (c.red as u32) | ((c.green as u32) << 8u32) | ((c.blue as u32) << 16u32)
}

impl Color {
    pub fn new(red: u8, green: u8, blue: u8) -> (r: Color)
        ensures
            r.red == red,
            r.green == green,
            r.blue == blue,
    {
        Color { red, green, blue }
    }

    /// Packs the colour as `red | green << 8 | blue << 16`.
    pub fn packed(&self) -> (r: u32)
        ensures
            r == packed_of(*self),
    {
        (self.red as u32) | ((self.green as u32) << 8u32) | ((self.blue as u32) << 16u32)
    }

    /// Reads a colour back from its packed form; the top byte is ignored.
    pub fn from_packed(p: u32) -> (r: Color)
        ensures
            r.red == (p & 0xFFu32) as u8,
            r.green == ((p >> 8u32) & 0xFFu32) as u8,
            r.blue == ((p >> 16u32) & 0xFFu32) as u8,
    {
        Color {
            red: (p & 0xFFu32) as u8,
            green: ((p >> 8u32) & 0xFFu32) as u8,
            blue: ((p >> 16u32) & 0xFFu32) as u8,
        }
    }
}

impl From<Color> for u32 {
    /// The packed form of the colour, as [`Color::packed`] gives it.
    fn from(c: Color) -> (r: u32) {
        c.packed()
    }
}

impl vstd::std_specs::convert::FromSpecImpl<Color> for u32 {
    open spec fn obeys_from_spec() -> bool {
        true
    }

    open spec fn from_spec(c: Color) -> u32 {
        packed_of(c)
    }
}

/// Unpacking a packed colour byte by byte (`packed & 0xFF`,
/// `(packed >> 8) & 0xFF`, `(packed >> 16) & 0xFF`) gives back exactly its
/// red, green and blue channels, and the top byte of the packed value is zero.
pub proof fn lemma_packed_round_trip(c: Color)
    ensures
        packed_of(c) & 0xFFu32 == c.red as u32,
        (packed_of(c) >> 8u32) & 0xFFu32 == c.green as u32,
        (packed_of(c) >> 16u32) & 0xFFu32 == c.blue as u32,
        packed_of(c) >> 24u32 == 0,
{
    let r = c.red as u32;
    let g = c.green as u32;
    let b = c.blue as u32;
    assert((r | (g << 8u32) | (b << 16u32)) & 0xFFu32 == r) by (bit_vector)
        requires r < 256u32, g < 256u32, b < 256u32;
    assert(((r | (g << 8u32) | (b << 16u32)) >> 8u32) & 0xFFu32 == g) by (bit_vector)
        requires r < 256u32, g < 256u32, b < 256u32;
    assert(((r | (g << 8u32) | (b << 16u32)) >> 16u32) & 0xFFu32 == b) by (bit_vector)
        requires r < 256u32, g < 256u32, b < 256u32;
    assert((r | (g << 8u32) | (b << 16u32)) >> 24u32 == 0u32) by (bit_vector)
        requires r < 256u32, g < 256u32, b < 256u32;
}

} // verus!
