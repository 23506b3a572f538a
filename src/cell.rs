use vstd::prelude::*;

use crate::arith::ComplexArith;

verus! {

/// The squared magnitude beyond which an orbit has escaped.
pub const ESCAPE_NORM_SQR: u32 = 4;

/// The iteration state of one pixel.
#[derive(Clone, Copy, Debug)]
pub struct GridCell<N> {
    /// The pixel's sample point; fixed for the cell's lifetime.
    pub c: N,
    /// The current iterate.
    pub z: N,
    /// The constant input of the derivative recurrence.
    pub dc: N,
    /// The derivative of `z` with respect to `c`.
    pub dz: N,
    /// The number of steps applied.
    pub iters: u32,
    /// Whether `|z|^2` has exceeded the escape threshold.
    pub has_escaped: bool,
}

impl<N: ComplexArith> GridCell<N> {
    /// The cell of sample point `c` before its first step.
    pub open spec fn fresh(c: N) -> Self {
        GridCell { c, z: N::ZERO, dc: N::ONE, dz: N::ONE, iters: 0, has_escaped: false }
    }

    /// The derivative's input is `1 + 0i`, and a cell that has taken no step
    /// still stands at the start of its orbit.
    pub open spec fn wf(self) -> bool {
        &&& self.dc == N::ONE
        &&& self.iters == 0 ==> self.z == N::ZERO && self.dz == N::ONE && !self.has_escaped
    }

    /// Whether a step changes the cell: it has not escaped, and its step count
    /// has room for one more.
    pub open spec fn is_active(self) -> bool {
        !self.has_escaped && self.iters < u32::MAX
    }

    /// The cell after a step that produced iterate `z`, derivative `dz` and
    /// escape verdict `escaped`.
    pub open spec fn advanced(self, z: N, dz: N, escaped: bool) -> Self {
        GridCell { z, dz, iters: (self.iters + 1) as u32, has_escaped: escaped, ..self }
    }

    /// The iterate after one step: `z*z + c`.
    pub open spec fn next_z(self) -> N {
        N::spec_add(N::spec_mul(self.z, self.z), self.c)
    }

    /// The derivative after one step: `2*dz*z + dc`.
    pub open spec fn next_dz(self) -> N {
        N::spec_add(N::spec_mul(N::spec_double(self.dz), self.z), self.dc)
    }

    /// What one step makes of the cell: an active cell advances to the next
    /// iterate and derivative, escaped when `|z*z + c|^2 > 4`; any other cell
    /// stays as it is.
    pub open spec fn spec_step(self) -> Self {
        if self.is_active() {
            self.advanced(
                self.next_z(),
                self.next_dz(),
                N::spec_norm_sqr_exceeds(self.next_z(), ESCAPE_NORM_SQR),
            )
        } else {
            self
        }
    }

    /// `next` is what one step makes of `self`.
    pub open spec fn steps_to(self, next: Self) -> bool {
        next == self.spec_step()
    }

    /// A cell at the start of the orbit of `c`.
    pub fn new(c: N) -> (r: Self)
        ensures
            r == Self::fresh(c),
            r.wf(),
    {
        GridCell { c, z: N::ZERO, dc: N::ONE, dz: N::ONE, iters: 0, has_escaped: false }
    }

    /// Records the outcome of one step: the new iterate and derivative, and
    /// whether the new iterate escaped.
    pub fn advance(&mut self, z: N, dz: N, escaped: bool)
        requires
            old(self).is_active(),
        ensures
            *final(self) == old(self).advanced(z, dz, escaped),
            old(self).wf() ==> final(self).wf(),
    {
        self.iters = self.iters + 1;
        self.z = z;
        self.dz = dz;
        self.has_escaped = escaped;
    }

    /// One escape-time step: `z' = z*z + c`, `dz' = 2*dz*z + dc`, escaped when
    /// `|z'|^2 > 4`. A cell that has escaped is left as it is, and so is one
    /// whose step count has reached `u32::MAX`.
    pub fn step(&mut self)
        ensures
            *final(self) == old(self).spec_step(),
            old(self).wf() ==> final(self).wf(),
    {
        if self.has_escaped || self.iters == u32::MAX {
            return;
        }
        let c = self.c;
        let z = self.z;
        let dc = self.dc;
        let dz = self.dz;
        let z_next = N::add(N::mul(z, z), c);
        let dz_next = N::add(N::mul(N::double(dz), z), dc);
        let escaped = N::norm_sqr_exceeds(z_next, ESCAPE_NORM_SQR);
        self.advance(z_next, dz_next, escaped);
    }

    /// A step keeps the cell's sample point and derivative input, never
    /// lowers its step count, and never clears its escape flag.
    pub proof fn lemma_step_keeps(self, next: Self)
        requires
            self.steps_to(next),
        ensures
            next.c == self.c,
            next.dc == self.dc,
            next.iters >= self.iters,
            self.has_escaped ==> next == self,
    {
    }
}

} // verus!
