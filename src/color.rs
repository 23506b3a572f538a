use vstd::prelude::*;

verus! {

/// A color as three 8-bit channels.
#[derive(Clone, Copy, Debug, PartialEq, Eq, Structural)]
pub struct Rgb {
    pub r: u8,
    pub g: u8,
    pub b: u8,
}

impl Rgb {
    pub fn new(r: u8, g: u8, b: u8) -> (c: Self)
        ensures
            c == (Rgb { r, g, b }),
    {
        Rgb { r, g, b }
    }

    pub open spec fn black() -> Self {
        Rgb { r: 0, g: 0, b: 0 }
    }
}

/// The pixel that holds channels `r`, `g` and `b`: `0x00RRGGBB`.
pub open spec fn packed(r: u8, g: u8, b: u8) -> u32 {
    (r as int * 0x10000 + g as int * 0x100 + b as int) as u32
}

/// Packs three channels into one pixel, laid out as `0x00RRGGBB`.
pub fn rgb(r: u8, g: u8, b: u8) -> (px: u32)
    ensures
        px == packed(r, g, b),
        px as int == r as int * 0x10000 + g as int * 0x100 + b as int,
        px < 0x100_0000,
{
    (r as u32) * 0x10000 + (g as u32) * 0x100 + (b as u32)
}

/// The channels of a pixel laid out as `0x00RRGGBB`; the top byte is ignored.
pub fn channels(px: u32) -> (c: Rgb)
    ensures
        c.r as int == (px as int / 0x10000) % 0x100,
        c.g as int == (px as int / 0x100) % 0x100,
        c.b as int == px as int % 0x100,
{
    Rgb { r: (px / 0x10000 % 0x100) as u8, g: (px / 0x100 % 0x100) as u8, b: (px % 0x100) as u8 }
}

/// A packed pixel gives back exactly the channels it was packed from.
pub proof fn lemma_channels_of_packed(r: u8, g: u8, b: u8)
    ensures
        ({
            let px = packed(r, g, b) as int;
            &&& (px / 0x10000) % 0x100 == r as int
            &&& (px / 0x100) % 0x100 == g as int
            &&& px % 0x100 == b as int
        }),
{
    let px = r as int * 0x10000 + g as int * 0x100 + b as int;
    assert(px / 0x10000 == r as int);
    assert(px / 0x100 == r as int * 0x100 + g as int);
    assert((r as int * 0x100 + g as int) % 0x100 == g as int);
    assert(px % 0x100 == b as int);
}

} // verus!
