//! Colors written as `0xRRGGBB`.
use vstd::prelude::*;

verus! {

/// A color as `0xRRGGBB`; bits above the low 24 are ignored.
pub struct HexColor(pub u32);

impl HexColor {
    /// The red, green and blue bytes of the color.
    pub open spec fn channels_spec(&self) -> (u8, u8, u8) {
        (((self.0 >> 16u32) & 0xffu32) as u8, ((self.0 >> 8u32) & 0xffu32) as u8, (self.0 & 0xffu32) as u8)
    }

    /// The red, green and blue bytes of the color, each to be divided by 255 for the
    /// color's components.
    pub fn channels(&self) -> (r: (u8, u8, u8))
        ensures
            r == self.channels_spec(),
    {
        let x = self.0;
        let red = (x >> 16u32) & 0xffu32;
        let green = (x >> 8u32) & 0xffu32;
        let blue = x & 0xffu32;
        assert(red < 256 && green < 256 && blue < 256) by (bit_vector)
            requires
                red == (x >> 16u32) & 0xffu32,
                green == (x >> 8u32) & 0xffu32,
                blue == x & 0xffu32,
        ;
        (red as u8, green as u8, blue as u8)
    }
}

impl Default for HexColor {
    fn default() -> (r: Self)
        ensures
            r.0 == 0,
    {
        HexColor(0)
    }
}

/// The three bytes put back together give the low 24 bits of the color: nothing of those
/// bits is lost, and nothing above them is read.
pub proof fn lemma_channels_recompose(c: HexColor)
    ensures
        ({
            let (r, g, b) = c.channels_spec();
            ((r as u32) << 16u32) | ((g as u32) << 8u32) | (b as u32) == c.0 & 0xffffffu32
        }),
{
    let x = c.0;
    assert((((((x >> 16u32) & 0xffu32) as u8) as u32) << 16u32) | (((((x >> 8u32) & 0xffu32) as u8) as u32) << 8u32)
        | (((x & 0xffu32) as u8) as u32) == x & 0xffffffu32) by (bit_vector);
}

/// Two colors with the same low 24 bits have the same channels.
pub proof fn lemma_channels_ignore_high_bits(a: HexColor, b: HexColor)
    requires
        a.0 & 0xffffffu32 == b.0 & 0xffffffu32,
    ensures
        a.channels_spec() == b.channels_spec(),
{
    let x = a.0;
    let y = b.0;
    assert(((x >> 16u32) & 0xffu32) == ((y >> 16u32) & 0xffu32) && ((x >> 8u32) & 0xffu32) == ((y >> 8u32)
        & 0xffu32) && (x & 0xffu32) == (y & 0xffu32)) by (bit_vector)
        requires
            x & 0xffffffu32 == y & 0xffffffu32,
    ;
}

} // verus!
