use rayon::iter::{IntoParallelRefMutIterator, ParallelIterator};
use vstd::prelude::*;

use crate::arith::ComplexArith;
use crate::cell::GridCell;
use crate::color::{packed, rgb, Rgb};
use crate::frame::SimConfig;

verus! {

/// The escape-time engine: one cell per pixel of the configured grid.
pub struct Sim<N> {
    config: SimConfig<N>,
    grid: Vec<GridCell<N>>,
}

/// The grid at the start of every orbit: one fresh cell per sample point.
pub open spec fn fresh_grid<N: ComplexArith>(points: Seq<N>) -> Seq<GridCell<N>> {
    points.map_values(|c: N| GridCell::fresh(c))
}

/// Steps every cell, the cells spread over rayon's worker threads.
///
/// Relies on rayon's `par_iter_mut().for_each`: the closure runs exactly once
/// on each element of the vector, and the vector keeps its length and order.
#[verifier::external_body]
fn step_all_parallel<N: ComplexArith + Send>(cells: &mut Vec<GridCell<N>>)
    ensures
        final(cells)@.len() == old(cells)@.len(),
        forall|i: int|
            0 <= i < old(cells)@.len() ==> (#[trigger] old(cells)@[i]).steps_to(final(cells)@[i])
                && (old(cells)@[i].wf() ==> final(cells)@[i].wf()),
{
    cells.par_iter_mut().for_each(|cell| cell.step());
}

/// Pixel `px` holds, packed, a color that `color` returns for `cell`.
pub open spec fn shows<N, F: Fn(&GridCell<N>) -> Rgb>(color: F, cell: GridCell<N>, px: u32) -> bool {
    exists|c: Rgb| #[trigger] color.ensures((&cell,), c) && px == packed(c.r, c.g, c.b)
}

impl<N: ComplexArith> Sim<N> {
    /// The configuration the engine was built with.
    pub closed spec fn spec_config(&self) -> SimConfig<N> {
        self.config
    }

    /// The cells, in pixel order: row by row from the top, left to right.
    pub closed spec fn cells(&self) -> Seq<GridCell<N>> {
        self.grid@
    }

    /// The sample points of the cells, in pixel order.
    pub open spec fn points(&self) -> Seq<N> {
        self.cells().map_values(|cell: GridCell<N>| cell.c)
    }

    /// One well-formed cell per pixel, each at the sample point of its pixel.
    pub open spec fn wf(&self) -> bool {
        &&& self.spec_config().fb_dims.is_positive()
        &&& self.spec_config().fb_dims.indexable()
        &&& self.points() == self.spec_config().points()
        &&& forall|i: int| 0 <= i < self.cells().len() ==> (#[trigger] self.cells()[i]).wf()
    }

    /// `next` is what one update makes of `self`: every cell takes one step.
    pub open spec fn updates_to(&self, next: &Self) -> bool {
        &&& next.spec_config() == self.spec_config()
        &&& next.cells().len() == self.cells().len()
        &&& forall|i: int|
            0 <= i < self.cells().len() ==> (#[trigger] self.cells()[i]).steps_to(next.cells()[i])
    }

    /// Builds the grid: cell `idx` starts the orbit of the sample point of pixel `idx`.
    pub fn new(config: SimConfig<N>) -> (r: Self)
        requires
            config.fb_dims.is_positive(),
            config.fb_dims.indexable(),
        ensures
            r.wf(),
            r.spec_config() == config,
            r.cells() == fresh_grid(config.points()),
    {
        let n: u32 = config.fb_dims.x * config.fb_dims.y;
        let mut grid: Vec<GridCell<N>> = Vec::with_capacity(n as usize);
        let mut idx: u32 = 0;
        while idx < n
            invariant
                idx <= n,
                n == config.fb_dims.count(),
                grid@.len() == idx,
                forall|i: int| 0 <= i < idx ==> #[trigger] grid@[i] == GridCell::fresh(config.point(i)),
            decreases n - idx,
        {
            let c = config.idx_to_complex(idx);
            grid.push(GridCell::new(c));
            idx = idx + 1;
        }
        let r = Sim { config, grid };
        assert(r.cells() =~= fresh_grid(config.points()));
        assert(r.points() =~= config.points());
        r
    }

    /// The configuration the engine was built with.
    pub fn config(&self) -> (r: &SimConfig<N>)
        ensures
            *r == self.spec_config(),
    {
        &self.config
    }

    /// The cells, in pixel order.
    pub fn grid(&self) -> (r: &[GridCell<N>])
        ensures
            r@ == self.cells(),
    {
        self.grid.as_slice()
    }

    /// Puts every cell back at the start of its orbit; each keeps its sample point.
    pub fn reset(&mut self)
        requires
            old(self).wf(),
        ensures
            final(self).wf(),
            final(self).spec_config() == old(self).spec_config(),
            final(self).cells() == fresh_grid(old(self).spec_config().points()),
    {
        let n = self.grid.len();
        let ghost start = self.grid@;
        let mut i: usize = 0;
        while i < n
            invariant
                i <= n,
                n == start.len(),
                self.grid@.len() == n,
                self.config == old(self).config,
                start == old(self).grid@,
                forall|j: int| i <= j < n ==> #[trigger] self.grid@[j] == start[j],
                forall|j: int| 0 <= j < i ==> #[trigger] self.grid@[j] == GridCell::fresh(start[j].c),
            decreases n - i,
        {
            let c = self.grid[i].c;
            self.grid.set(i, GridCell::new(c));
            i = i + 1;
        }
        assert(self.cells() =~= fresh_grid(old(self).points()));
        assert(self.points() =~= old(self).points());
    }

    /// Advances every cell that has not escaped by one step.
    pub fn update(&mut self)
        requires
            old(self).wf(),
        ensures
            final(self).wf(),
            old(self).updates_to(final(self)),
            final(self).points() == old(self).points(),
    {
        let n = self.grid.len();
        let ghost start = self.grid@;
        let mut i: usize = 0;
        while i < n
            invariant
                i <= n,
                n == start.len(),
                self.grid@.len() == n,
                self.config == old(self).config,
                start == old(self).grid@,
                forall|j: int| 0 <= j < n ==> (#[trigger] start[j]).wf(),
                forall|j: int| i <= j < n ==> #[trigger] self.grid@[j] == start[j],
                forall|j: int| 0 <= j < i ==> (#[trigger] start[j]).steps_to(self.grid@[j]),
                forall|j: int|
                    0 <= j < n ==> (#[trigger] self.grid@[j]).wf() && self.grid@[j].c == start[j].c,
            decreases n - i,
        {
            let mut cell = self.grid[i];
            if !cell.has_escaped {
                cell.step();
            }
            self.grid.set(i, cell);
            i = i + 1;
        }
        assert(final(self).points() =~= old(self).points());
    }

    /// Writes the color of every cell into `fb`, one packed pixel per cell in
    /// pixel order (see [`rgb`]).
    pub fn draw<F: Fn(&GridCell<N>) -> Rgb>(&mut self, fb: &mut [u32], color: F)
        requires
            old(fb)@.len() == old(self).cells().len(),
            forall|i: int|
                0 <= i < old(self).cells().len() ==> color.requires((&old(self).cells()[i],)),
        ensures
            *final(self) == *old(self),
            final(fb)@.len() == old(fb)@.len(),
            forall|i: int|
                0 <= i < old(self).cells().len() ==> #[trigger] shows(
                    color,
                    old(self).cells()[i],
                    final(fb)@[i],
                ),
    {
        let n = self.grid.len();
        let mut i: usize = 0;
        while i < n
            invariant
                i <= n,
                n == self.grid@.len(),
                fb@.len() == n,
                *self == *old(self),
                forall|j: int| 0 <= j < n ==> color.requires((&self.grid@[j],)),
                forall|j: int| 0 <= j < i ==> #[trigger] shows(color, self.grid@[j], fb@[j]),
            decreases n - i,
        {
            let c = color(&self.grid[i]);
            fb[i] = rgb(c.r, c.g, c.b);
            i = i + 1;
        }
    }

    /// Once a cell has escaped, no number of updates changes it: its iterate,
    /// derivative and step count stay as they were.
    pub proof fn lemma_escaped_cell_frozen(runs: Seq<Self>, i: int, k: int)
        requires
            forall|j: int| 0 <= j < runs.len() - 1 ==> (#[trigger] runs[j]).updates_to(&runs[j + 1]),
            0 <= k < runs.len(),
            0 <= i < runs[0].cells().len(),
            runs[0].cells()[i].has_escaped,
        ensures
            runs[k].cells().len() == runs[0].cells().len(),
            runs[k].cells()[i] == runs[0].cells()[i],
        decreases k,
    {
        if k > 0 {
            Self::lemma_escaped_cell_frozen(runs, i, k - 1);
            assert(runs[k - 1].updates_to(&runs[k]));
            runs[k - 1].cells()[i].lemma_step_keeps(runs[k].cells()[i]);
        }
    }

    /// Updates keep every cell's sample point.
    pub proof fn lemma_updates_keep_points(runs: Seq<Self>, k: int)
        requires
            forall|j: int| 0 <= j < runs.len() - 1 ==> (#[trigger] runs[j]).updates_to(&runs[j + 1]),
            0 <= k < runs.len(),
        ensures
            runs[k].points() == runs[0].points(),
            runs[k].spec_config() == runs[0].spec_config(),
        decreases k,
    {
        if k > 0 {
            Self::lemma_updates_keep_points(runs, k - 1);
            let (a, b) = (runs[k - 1], runs[k]);
            assert(a.updates_to(&b));
            assert forall|i: int| 0 <= i < a.cells().len() implies #[trigger] b.cells()[i].c
                == a.cells()[i].c by {
                a.cells()[i].lemma_step_keeps(b.cells()[i]);
            }
            assert(b.points() =~= a.points());
        }
    }

    /// A reset after any number of updates gives back exactly the grid that
    /// construction built on the same configuration: every cell fresh, at
    /// the sample point of its pixel.
    pub proof fn lemma_reset_restores_built(runs: Seq<Self>, after: Self)
        requires
            runs.len() > 0,
            runs[0].cells() == fresh_grid(runs[0].spec_config().points()),
            forall|j: int| 0 <= j < runs.len() - 1 ==> (#[trigger] runs[j]).updates_to(&runs[j + 1]),
            after.spec_config() == runs[runs.len() - 1].spec_config(),
            after.cells() == fresh_grid(after.spec_config().points()),
        ensures
            after.cells() == runs[0].cells(),
    {
        Self::lemma_updates_keep_points(runs, runs.len() - 1);
    }

    /// An update has one outcome: each cell's next state is a function of
    /// that cell alone, so any two updates of the same grid (sequential or
    /// parallel) agree cell for cell.
    pub proof fn lemma_update_has_one_outcome(&self, a: Self, b: Self)
        requires
            self.updates_to(&a),
            self.updates_to(&b),
        ensures
            a.cells() == b.cells(),
            forall|i: int|
                0 <= i < self.cells().len() ==> #[trigger] a.cells()[i] == self.cells()[i].spec_step(),
    {
        assert forall|i: int| 0 <= i < self.cells().len() implies #[trigger] a.cells()[i]
            == self.cells()[i].spec_step() && b.cells()[i] == self.cells()[i].spec_step() by {
            assert(self.cells()[i].steps_to(a.cells()[i]));
            assert(self.cells()[i].steps_to(b.cells()[i]));
        }
        assert(a.cells() =~= b.cells());
    }
}

impl<N: ComplexArith + Send> Sim<N> {
    /// Advances every cell that has not escaped by one step, the cells spread
    /// over worker threads. The outcome is that of [`Sim::update`].
    pub fn update_parallel(&mut self)
        requires
            old(self).wf(),
        ensures
            final(self).wf(),
            old(self).updates_to(final(self)),
            final(self).points() == old(self).points(),
    {
        step_all_parallel(&mut self.grid);
        assert forall|i: int| 0 <= i < self.grid@.len() implies #[trigger] self.grid@[i].c
            == old(self).grid@[i].c by {
            old(self).grid@[i].lemma_step_keeps(self.grid@[i]);
        }
        assert(final(self).points() =~= old(self).points());
        assert forall|i: int| 0 <= i < self.grid@.len() implies (#[trigger] self.grid@[i]).wf() by {
            assert(old(self).grid@[i].wf());
        }
    }
}

} // verus!
