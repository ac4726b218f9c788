//! An RGBA colour of eight bits per channel, and its packing into the
//! 16-bit RGBA5551 texel.
use vstd::prelude::*;

verus! {

/// A colour of eight bits per channel.
#[derive(Copy, Clone, Debug, PartialEq, Eq, Structural)]
pub struct Color {
    pub r: u8,
    pub g: u8,
    pub b: u8,
    pub a: u8,
}

/// The RGBA5551 texel of a colour: five bits each of red, green and blue (the top
/// five bits of each channel), then one bit of alpha, set only for full opacity.
pub open spec fn rgba5551(r: u8, g: u8, b: u8, a: u8) -> u16 {
    ((r / 8) * 2048 + (g / 8) * 64 + (b / 8) * 2 + a / 255) as u16
}

/// The fields of an RGBA5551 texel: bits 11 to 15 hold the top five bits of red,
/// bits 6 to 10 those of green, bits 1 to 5 those of blue, and bit 0 is set exactly
/// for a fully opaque alpha.
pub proof fn lemma_rgba5551_fields(r: u8, g: u8, b: u8, a: u8)
    ensures
        rgba5551(r, g, b, a) >> 11u16 == (r >> 3u8) as u16,
        (rgba5551(r, g, b, a) >> 6u16) & 0x1Fu16 == (g >> 3u8) as u16,
        (rgba5551(r, g, b, a) >> 1u16) & 0x1Fu16 == (b >> 3u8) as u16,
        rgba5551(r, g, b, a) & 1u16 == (if a == 255 { 1u16 } else { 0u16 }),
{
    let v = rgba5551(r, g, b, a);
    let rr = (r / 8) as u16;
    let gg = (g / 8) as u16;
    let bb = (b / 8) as u16;
    let aa = (a / 255) as u16;
    assert(v == rr * 2048 + gg * 64 + bb * 2 + aa);
    assert(rr == (r >> 3u8) as u16 && gg == (g >> 3u8) as u16 && bb == (b >> 3u8) as u16)
        by (bit_vector)
        requires
            rr == (r / 8) as u16,
            gg == (g / 8) as u16,
            bb == (b / 8) as u16,
    ;
    assert(aa == (if a == 255 { 1u16 } else { 0u16 }));
    assert(v >> 11u16 == rr && (v >> 6u16) & 0x1Fu16 == gg && (v >> 1u16) & 0x1Fu16 == bb && v
        & 1u16 == aa) by (bit_vector)
        requires
            v == rr * 2048 + gg * 64 + bb * 2 + aa,
            rr < 32,
            gg < 32,
            bb < 32,
            aa < 2,
    ;
}

impl Color {
    /// A colour of the given channels.
    #[allow(non_snake_case)]
    pub fn RGBA(r: u8, g: u8, b: u8, a: u8) -> (c: Color)
        ensures
            c == (Color { r, g, b, a }),
    {
        Color { r, g, b, a }
    }

    /// An opaque colour of the given channels.
    #[allow(non_snake_case)]
    pub fn RGB(r: u8, g: u8, b: u8) -> (c: Color)
        ensures
            c == (Color { r, g, b, a: 0xFF }),
    {
        Color { r, g, b, a: 0xFF }
    }

    /// The RGBA5551 texel of this colour.
    pub open spec fn spec_to_u16(self) -> u16 {
        rgba5551(self.r, self.g, self.b, self.a)
    }

    /// Packs this colour into an RGBA5551 texel.
    pub fn to_u16(&self) -> (v: u16)
        ensures
            v == self.spec_to_u16(),
    {
        let r = (self.r / 8) as u16;
        let g = (self.g / 8) as u16;
        let b = (self.b / 8) as u16;
        let a = (self.a / 255) as u16;
        assert((r << 11u16) | (g << 6u16) | (b << 1u16) | a == r * 2048 + g * 64 + b * 2 + a)
            by (bit_vector)
            requires
                r < 32,
                g < 32,
                b < 32,
                a < 2,
        ;
        (r << 11u16) | (g << 6u16) | (b << 1u16) | a
    }
}

} // verus!
