use vstd::prelude::*;

use crate::arith::ComplexArith;

verus! {

/// Width (`x`) and height (`y`) of the pixel grid.
#[derive(Clone, Copy, Debug, PartialEq, Eq, Structural)]
pub struct PixelDims {
    pub x: u32,
    pub y: u32,
}

impl PixelDims {
    pub fn new(x: u32, y: u32) -> (r: Self)
        ensures
            r.x == x,
            r.y == y,
    {
        PixelDims { x, y }
    }

    /// The number of pixels.
    pub open spec fn count(self) -> nat {
        (self.x * self.y) as nat
    }

    /// Whether the grid has at least one pixel each way.
    pub open spec fn is_positive(self) -> bool {
        self.x > 0 && self.y > 0
    }

    /// Whether every pixel index fits in a `u32`.
    pub open spec fn indexable(self) -> bool {
        self.x * self.y <= u32::MAX
    }

    /// The column of pixel `idx`: pixels are laid out row by row, `x` varying fastest.
    pub open spec fn column(self, idx: int) -> int {
        idx % (self.x as int)
    }

    /// The row of pixel `idx`, row 0 at the top.
    pub open spec fn row(self, idx: int) -> int {
        idx / (self.x as int)
    }
}

/// The pixel grid and the rectangle of the complex plane that it samples.
#[derive(Clone, Copy, Debug, PartialEq)]
pub struct SimConfig<N> {
    /// Dimensions of the framebuffer.
    pub fb_dims: PixelDims,
    /// The lower-left (`-x`, `-y`) corner of the frame.
    pub frame_min: N,
    /// The upper-right (`+x`, `+y`) corner of the frame.
    pub frame_max: N,
}

impl<N: ComplexArith> SimConfig<N> {
    /// The sample point of pixel `idx`.
    pub open spec fn point(self, idx: int) -> N {
        N::spec_frame_point(
            self.frame_min,
            self.frame_max,
            self.fb_dims.column(idx) as u32,
            self.fb_dims.x,
            self.fb_dims.row(idx) as u32,
            self.fb_dims.y,
        )
    }

    /// The sample points of all pixels, in pixel order.
    pub open spec fn points(self) -> Seq<N> {
        Seq::new(self.fb_dims.count(), |idx: int| self.point(idx))
    }

    /// The column and the row of pixel `idx`.
    pub fn pixel_of(&self, idx: u32) -> (r: (u32, u32))
        requires
            idx < self.fb_dims.count(),
        ensures
            r.0 == self.fb_dims.column(idx as int),
            r.1 == self.fb_dims.row(idx as int),
            r.0 < self.fb_dims.x,
            r.1 < self.fb_dims.y,
    {
        let w = self.fb_dims.x;
        proof {
            assert(w > 0) by (nonlinear_arith)
                requires idx < w * self.fb_dims.y, idx >= 0;
            lemma_row_bound(idx as int, w as int, self.fb_dims.y as int);
        }
        (idx % w, idx / w)
    }

    /// The sample point of pixel `idx`: its column and row, normalized by the
    /// grid's width and height, placed in the frame with row 0 at the top.
    pub fn idx_to_complex(&self, idx: u32) -> (r: N)
        requires
            idx < self.fb_dims.count(),
        ensures
            r == self.point(idx as int),
    {
        let (x, y) = self.pixel_of(idx);
        N::frame_point(self.frame_min, self.frame_max, x, self.fb_dims.x, y, self.fb_dims.y)
    }
}

/// Distinct pixel indices lie at distinct pixels: the row and the column
/// give the index back, `idx == row * width + column`.
pub proof fn lemma_pixel_layout(dims: PixelDims, idx: int)
    requires
        0 <= idx < dims.count(),
    ensures
        idx == dims.row(idx) * dims.x + dims.column(idx),
        0 <= dims.column(idx) < dims.x,
        0 <= dims.row(idx) < dims.y,
{
    let w = dims.x as int;
    assert(w > 0) by (nonlinear_arith)
        requires idx < w * dims.y, idx >= 0;
    lemma_row_bound(idx, w, dims.y as int);
    assert(idx == (idx / w) * w + idx % w) by (nonlinear_arith)
        requires w > 0;
}

/// Two pixel indices with the same column and row are the same index.
pub proof fn lemma_pixel_of_injective(dims: PixelDims, i: int, j: int)
    requires
        0 <= i < dims.count(),
        0 <= j < dims.count(),
        dims.column(i) == dims.column(j),
        dims.row(i) == dims.row(j),
    ensures
        i == j,
{
    lemma_pixel_layout(dims, i);
    lemma_pixel_layout(dims, j);
}

/// Moving one index along a row moves one column right in the same row;
/// moving `width` indices moves one row down in the same column.
pub proof fn lemma_pixel_neighbours(dims: PixelDims, idx: int)
    requires
        0 <= idx < dims.count(),
    ensures
        dims.column(idx) + 1 < dims.x ==> dims.column(idx + 1) == dims.column(idx) + 1
            && dims.row(idx + 1) == dims.row(idx),
        dims.column(idx + dims.x) == dims.column(idx),
        dims.row(idx + dims.x) == dims.row(idx) + 1,
{
    let w = dims.x as int;
    lemma_pixel_layout(dims, idx);
    let (q, r) = (idx / w, idx % w);
    assert(idx + w == (q + 1) * w + r) by (nonlinear_arith)
        requires idx == q * w + r;
    vstd::arithmetic::div_mod::lemma_fundamental_div_mod_converse(idx + w, w, q + 1, r);
    if r + 1 < w {
        assert(idx + 1 == q * w + (r + 1));
        vstd::arithmetic::div_mod::lemma_fundamental_div_mod_converse(idx + 1, w, q, r + 1);
    }
}

proof fn lemma_row_bound(idx: int, w: int, h: int)
    requires
        0 <= idx < w * h,
        w > 0,
    ensures
        idx / w < h,
{
    assert(idx / w < h) by (nonlinear_arith)
        requires 0 <= idx < w * h, w > 0;
}

} // verus!
