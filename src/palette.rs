use vstd::prelude::*;

use crate::arith::ComplexArith;
use crate::cell::GridCell;
use crate::color::Rgb;

verus! {

/// The number of colors in the banded palette.
pub const PALETTE_LEN: usize = 16;

/// Color `k` of the banded palette, for `k` in `0..16`: a cycle from dark
/// brown through blues and white to orange.
pub open spec fn color_mapping(k: int) -> Rgb {
    if k == 0 {
        Rgb { r: 66, g: 30, b: 15 }
    } else if k == 1 {
        Rgb { r: 25, g: 7, b: 26 }
    } else if k == 2 {
        Rgb { r: 9, g: 1, b: 47 }
    } else if k == 3 {
        Rgb { r: 4, g: 4, b: 73 }
    } else if k == 4 {
        Rgb { r: 0, g: 7, b: 100 }
    } else if k == 5 {
        Rgb { r: 12, g: 44, b: 138 }
    } else if k == 6 {
        Rgb { r: 24, g: 82, b: 177 }
    } else if k == 7 {
        Rgb { r: 57, g: 125, b: 209 }
    } else if k == 8 {
        Rgb { r: 134, g: 181, b: 229 }
    } else if k == 9 {
        Rgb { r: 211, g: 236, b: 248 }
    } else if k == 10 {
        Rgb { r: 241, g: 233, b: 191 }
    } else if k == 11 {
        Rgb { r: 248, g: 201, b: 95 }
    } else if k == 12 {
        Rgb { r: 255, g: 170, b: 0 }
    } else if k == 13 {
        Rgb { r: 204, g: 128, b: 0 }
    } else if k == 14 {
        Rgb { r: 153, g: 87, b: 0 }
    } else {
        Rgb { r: 106, g: 52, b: 3 }
    }
}

/// Color `i mod 16` of the banded palette.
pub fn palette_color(i: usize) -> (c: Rgb)
    ensures
        c == color_mapping((i % PALETTE_LEN) as int),
{
    match i % PALETTE_LEN {
        0 => Rgb::new(66, 30, 15),
        1 => Rgb::new(25, 7, 26),
        2 => Rgb::new(9, 1, 47),
        3 => Rgb::new(4, 4, 73),
        4 => Rgb::new(0, 7, 100),
        5 => Rgb::new(12, 44, 138),
        6 => Rgb::new(24, 82, 177),
        7 => Rgb::new(57, 125, 209),
        8 => Rgb::new(134, 181, 229),
        9 => Rgb::new(211, 236, 248),
        10 => Rgb::new(241, 233, 191),
        11 => Rgb::new(248, 201, 95),
        12 => Rgb::new(255, 170, 0),
        13 => Rgb::new(204, 128, 0),
        14 => Rgb::new(153, 87, 0),
        _ => Rgb::new(106, 52, 3),
    }
}

/// Escaped cells take their color from the banded palette by step count;
/// the others are black.
pub fn with_plain_colors<N: ComplexArith>(cell: &GridCell<N>) -> (c: Rgb)
    ensures
        c == (if cell.has_escaped {
            color_mapping(cell.iters as int % 16)
        } else {
            Rgb::black()
        }),
{
    if cell.has_escaped {
        palette_color(cell.iters as usize)
    } else {
        Rgb::new(0, 0, 0)
    }
}

} // verus!
