//! Placing patterns on a grid: all of a pattern or nothing of it.

use vstd::prelude::*;

use crate::grid::{marks, Grid};
use crate::pattern::{Footprint, Pattern};

verus! {

/// `base + delta`, where that is an index below `limit`.
pub fn shifted(base: usize, delta: i32, limit: usize) -> (index: Option<usize>)
    ensures
        0 <= base + delta < limit ==> index == Some((base + delta) as usize),
        !(0 <= base + delta < limit) ==> index.is_none(),
{
    if delta >= 0 {
        let forth = delta as usize;
        if base < limit && forth < limit - base {
            Some(base + forth)
        } else {
            None
        }
    } else {
        let back = (-(delta as i64)) as usize;
        if back <= base && base - back < limit {
            Some(base - back)
        } else {
            None
        }
    }
}

/// `base + delta`, which must be an index.
pub fn moved(base: usize, delta: i32) -> (index: usize)
    requires
        0 <= base + delta <= usize::MAX,
    ensures
        index == base + delta,
{
    if delta >= 0 {
        base + delta as usize
    } else {
        base - (-(delta as i64)) as usize
    }
}

impl Grid {
    /// Whether the pattern, anchored at `(x, y)`, lies within the grid with
    /// every one of its cells.
    pub open spec fn fits(&self, pattern: Pattern, x: int, y: int) -> bool {
        forall|k: int|
            0 <= k < pattern.offsets().len() ==> self.in_bounds(
                x + (#[trigger] pattern.offsets()[k]).0,
                y + pattern.offsets()[k].1,
            )
    }

    /// Whether this grid is `before` after the pattern was placed at
    /// `(x, y)`: where the pattern fits, its cells are alive and all others
    /// are as they were; where it does not, nothing has changed.
    pub open spec fn is_stamped_from(&self, before: &Grid, pattern: Pattern, x: int, y: int) -> bool {
        &&& self.width() == before.width()
        &&& self.height() == before.height()
        &&& before.fits(pattern, x, y) ==> forall|a: int, b: int|
            #[trigger] self.alive_at(a, b) <==> before.alive_at(a, b) || pattern.covers(
                a - x,
                b - y,
            )
        &&& !before.fits(pattern, x, y) ==> self@ == before@
    }

    /// Whether the box of the given sides, set at `(x, y)`, lies within the
    /// grid.
    pub open spec fn holds_box(&self, sides: Footprint, x: int, y: int) -> bool {
        self.in_bounds(x + sides.min_dx, y + sides.min_dy) && self.in_bounds(
            x + sides.max_dx,
            y + sides.max_dy,
        )
    }

    /// A pattern fits exactly if its footprint lies within the grid.
    pub proof fn lemma_fits_by_footprint(&self, pattern: Pattern, sides: Footprint, x: int, y: int)
        requires
            pattern.has_footprint(sides),
        ensures
            self.fits(pattern, x, y) <==> self.holds_box(sides, x, y),
    {
        let cells = pattern.offsets();
        if self.fits(pattern, x, y) {
            let left = choose|k: int| 0 <= k < cells.len() && (#[trigger] cells[k]).0 == sides.min_dx;
            let right = choose|k: int|
                0 <= k < cells.len() && (#[trigger] cells[k]).0 == sides.max_dx;
            let top = choose|k: int| 0 <= k < cells.len() && (#[trigger] cells[k]).1 == sides.min_dy;
            let bottom = choose|k: int|
                0 <= k < cells.len() && (#[trigger] cells[k]).1 == sides.max_dy;
            assert(self.in_bounds(x + cells[left].0, y + cells[left].1));
            assert(self.in_bounds(x + cells[right].0, y + cells[right].1));
            assert(self.in_bounds(x + cells[top].0, y + cells[top].1));
            assert(self.in_bounds(x + cells[bottom].0, y + cells[bottom].1));
        }
    }

    /// Whether the pattern, anchored at `(x, y)`, lies within the grid with
    /// every one of its cells. The answer is read off the pattern's
    /// footprint, in signed arithmetic.
    pub fn fits_at(&self, pattern: Pattern, x: usize, y: usize) -> (fits: bool)
        ensures
            fits == self.fits(pattern, x as int, y as int),
    {
        let sides = pattern.footprint();
        proof {
            self.lemma_fits_by_footprint(pattern, sides, x as int, y as int);
        }
        shifted(x, sides.min_dx, self.width()).is_some() && shifted(
            x,
            sides.max_dx,
            self.width(),
        ).is_some() && shifted(y, sides.min_dy, self.height()).is_some() && shifted(
            y,
            sides.max_dy,
            self.height(),
        ).is_some()
    }

    /// The positions that the pattern takes when anchored at `(x, y)`, in the
    /// order of its offsets. The pattern must fit.
    pub fn placement(&self, pattern: Pattern, x: usize, y: usize) -> (coords: Vec<(usize, usize)>)
        requires
            self.fits(pattern, x as int, y as int),
        ensures
            coords@.len() == pattern.offsets().len(),
            forall|k: int|
                0 <= k < coords@.len() ==> (#[trigger] coords@[k]).0 == x + pattern.offsets()[k].0
                    && coords@[k].1 == y + pattern.offsets()[k].1,
    {
        let count = pattern.cell_count();
        let mut coords: Vec<(usize, usize)> = Vec::new();
        for k in 0..count
            invariant
                self.fits(pattern, x as int, y as int),
                count == pattern.offsets().len(),
                coords@.len() == k,
                forall|i: int|
                    0 <= i < k ==> (#[trigger] coords@[i]).0 == x + pattern.offsets()[i].0
                        && coords@[i].1 == y + pattern.offsets()[i].1,
        {
            let offset = pattern.offset(k);
            proof {
                let o = pattern.offsets()[k as int];
                assert(self.in_bounds(x + o.0, y + o.1));
            }
            coords.push((moved(x, offset.0), moved(y, offset.1)));
        }
        coords
    }

    /// Places the pattern with its anchor at `(x, y)`: makes each of its
    /// cells alive if all of them lie within the grid, and does nothing
    /// otherwise.
    pub fn spawn_pattern(&mut self, pattern: Pattern, x: usize, y: usize)
        requires
            old(self).wf(),
        ensures
            final(self).wf(),
            final(self).is_stamped_from(old(self), pattern, x as int, y as int),
    {
        if self.fits_at(pattern, x, y) {
            let coords = self.placement(pattern, x, y);
            let ghost cells = coords@;
            self.set_cells_alive(coords);
            proof {
                assert forall|a: int, b: int| #[trigger]
                    final(self).alive_at(a, b) <==> old(self).alive_at(a, b) || pattern.covers(
                        a - x,
                        b - y,
                    ) by {
                    if marks(cells, a, b) {
                        let k = choose|k: int|
                            0 <= k < cells.len() && (#[trigger] cells[k]).0 == a && cells[k].1 == b;
                        let o = pattern.offsets()[k];
                        assert(o.0 == a - x && o.1 == b - y);
                        assert(old(self).in_bounds(x + o.0, y + o.1));
                    }
                    if pattern.covers(a - x, b - y) {
                        let k = choose|k: int|
                            0 <= k < pattern.offsets().len() && (#[trigger] pattern.offsets()[k]).0
                                == a - x && pattern.offsets()[k].1 == b - y;
                        assert(cells[k].0 == a && cells[k].1 == b);
                        assert(old(self).in_bounds(a, b));
                    }
                }
            }
        }
    }

    /// Places a glider at `(x, y)`, if it fits.
    pub fn spawn_glider(&mut self, x: usize, y: usize)
        requires
            old(self).wf(),
        ensures
            final(self).wf(),
            final(self).is_stamped_from(old(self), Pattern::Glider, x as int, y as int),
    {
        self.spawn_pattern(Pattern::Glider, x, y);
    }

    /// Places a blinker at `(x, y)`, if it fits.
    pub fn spawn_blinker(&mut self, x: usize, y: usize)
        requires
            old(self).wf(),
        ensures
            final(self).wf(),
            final(self).is_stamped_from(old(self), Pattern::Blinker, x as int, y as int),
    {
        self.spawn_pattern(Pattern::Blinker, x, y);
    }

    /// Places a block at `(x, y)`, if it fits.
    pub fn spawn_block(&mut self, x: usize, y: usize)
        requires
            old(self).wf(),
        ensures
            final(self).wf(),
            final(self).is_stamped_from(old(self), Pattern::Block, x as int, y as int),
    {
        self.spawn_pattern(Pattern::Block, x, y);
    }

    /// Places a beehive at `(x, y)`, if it fits.
    pub fn spawn_beehive(&mut self, x: usize, y: usize)
        requires
            old(self).wf(),
        ensures
            final(self).wf(),
            final(self).is_stamped_from(old(self), Pattern::BeeHive, x as int, y as int),
    {
        self.spawn_pattern(Pattern::BeeHive, x, y);
    }

    /// Places a loaf at `(x, y)`, if it fits.
    pub fn spawn_loaf(&mut self, x: usize, y: usize)
        requires
            old(self).wf(),
        ensures
            final(self).wf(),
            final(self).is_stamped_from(old(self), Pattern::Loaf, x as int, y as int),
    {
        self.spawn_pattern(Pattern::Loaf, x, y);
    }

    /// Places a boat at `(x, y)`, if it fits.
    pub fn spawn_boat(&mut self, x: usize, y: usize)
        requires
            old(self).wf(),
        ensures
            final(self).wf(),
            final(self).is_stamped_from(old(self), Pattern::Boat, x as int, y as int),
    {
        self.spawn_pattern(Pattern::Boat, x, y);
    }

    /// Places a toad at `(x, y)`, if it fits.
    pub fn spawn_toad(&mut self, x: usize, y: usize)
        requires
            old(self).wf(),
        ensures
            final(self).wf(),
            final(self).is_stamped_from(old(self), Pattern::Toad, x as int, y as int),
    {
        self.spawn_pattern(Pattern::Toad, x, y);
    }

    /// Places a beacon at `(x, y)`, if it fits.
    pub fn spawn_beacon(&mut self, x: usize, y: usize)
        requires
            old(self).wf(),
        ensures
            final(self).wf(),
            final(self).is_stamped_from(old(self), Pattern::Beacon, x as int, y as int),
    {
        self.spawn_pattern(Pattern::Beacon, x, y);
    }

    /// Places a pulsar at `(x, y)`, if it fits.
    pub fn spawn_pulsar(&mut self, x: usize, y: usize)
        requires
            old(self).wf(),
        ensures
            final(self).wf(),
            final(self).is_stamped_from(old(self), Pattern::Pulsar, x as int, y as int),
    {
        self.spawn_pattern(Pattern::Pulsar, x, y);
    }

    /// Places a pentadecathlon at `(x, y)`, if it fits.
    pub fn spawn_pentadecanthlon(&mut self, x: usize, y: usize)
        requires
            old(self).wf(),
        ensures
            final(self).wf(),
            final(self).is_stamped_from(old(self), Pattern::Pentadecathlon, x as int, y as int),
    {
        self.spawn_pattern(Pattern::Pentadecathlon, x, y);
    }

    /// Places a lightweight spaceship at `(x, y)`, if it fits.
    pub fn spawn_light_spaceship(&mut self, x: usize, y: usize)
        requires
            old(self).wf(),
        ensures
            final(self).wf(),
            final(self).is_stamped_from(old(self), Pattern::LightSpaceship, x as int, y as int),
    {
        self.spawn_pattern(Pattern::LightSpaceship, x, y);
    }

    /// Places a middleweight spaceship at `(x, y)`, if it fits.
    pub fn spawn_middle_spaceship(&mut self, x: usize, y: usize)
        requires
            old(self).wf(),
        ensures
            final(self).wf(),
            final(self).is_stamped_from(old(self), Pattern::MiddleSpaceship, x as int, y as int),
    {
        self.spawn_pattern(Pattern::MiddleSpaceship, x, y);
    }

    /// Places a heavyweight spaceship at `(x, y)`, if it fits.
    pub fn spawn_heavy_spaceship(&mut self, x: usize, y: usize)
        requires
            old(self).wf(),
        ensures
            final(self).wf(),
            final(self).is_stamped_from(old(self), Pattern::HeavySpaceship, x as int, y as int),
    {
        self.spawn_pattern(Pattern::HeavySpaceship, x, y);
    }

    /// Places a glider gun at `(x, y)`, if it fits.
    pub fn spawn_glider_gun(&mut self, x: usize, y: usize)
        requires
            old(self).wf(),
        ensures
            final(self).wf(),
            final(self).is_stamped_from(old(self), Pattern::GliderGun, x as int, y as int),
    {
        self.spawn_pattern(Pattern::GliderGun, x, y);
    }

    /// Places a copperhead at `(x, y)`, if it fits.
    pub fn spawn_copperhead(&mut self, x: usize, y: usize)
        requires
            old(self).wf(),
        ensures
            final(self).wf(),
            final(self).is_stamped_from(old(self), Pattern::Copperhead, x as int, y as int),
    {
        self.spawn_pattern(Pattern::Copperhead, x, y);
    }

    /// Places an R-pentomino at `(x, y)`, if it fits.
    pub fn spawn_r_pentomino(&mut self, x: usize, y: usize)
        requires
            old(self).wf(),
        ensures
            final(self).wf(),
            final(self).is_stamped_from(old(self), Pattern::RPentomino, x as int, y as int),
    {
        self.spawn_pattern(Pattern::RPentomino, x, y);
    }

    /// Places a die hard seed at `(x, y)`, if it fits.
    pub fn spawn_die_hard(&mut self, x: usize, y: usize)
        requires
            old(self).wf(),
        ensures
            final(self).wf(),
            final(self).is_stamped_from(old(self), Pattern::DieHard, x as int, y as int),
    {
        self.spawn_pattern(Pattern::DieHard, x, y);
    }

    /// Places an acorn at `(x, y)`, if it fits.
    pub fn spawn_acorn(&mut self, x: usize, y: usize)
        requires
            old(self).wf(),
        ensures
            final(self).wf(),
            final(self).is_stamped_from(old(self), Pattern::Acorn, x as int, y as int),
    {
        self.spawn_pattern(Pattern::Acorn, x, y);
    }

    /// Places an almosymmetric oscillator at `(x, y)`, if it fits.
    pub fn spawn_almosymmetric(&mut self, x: usize, y: usize)
        requires
            old(self).wf(),
        ensures
            final(self).wf(),
            final(self).is_stamped_from(old(self), Pattern::Almosymmetric, x as int, y as int),
    {
        self.spawn_pattern(Pattern::Almosymmetric, x, y);
    }

    /// Places the first seed of endless growth at `(x, y)`, if it fits.
    pub fn spawn_infinite_growth_1(&mut self, x: usize, y: usize)
        requires
            old(self).wf(),
        ensures
            final(self).wf(),
            final(self).is_stamped_from(old(self), Pattern::InfiniteGrowth1, x as int, y as int),
    {
        self.spawn_pattern(Pattern::InfiniteGrowth1, x, y);
    }

    /// Places the second seed of endless growth at `(x, y)`, if it fits.
    pub fn spawn_infinite_growth_2(&mut self, x: usize, y: usize)
        requires
            old(self).wf(),
        ensures
            final(self).wf(),
            final(self).is_stamped_from(old(self), Pattern::InfiniteGrowth2, x as int, y as int),
    {
        self.spawn_pattern(Pattern::InfiniteGrowth2, x, y);
    }

    /// Places a fast forward force field at `(x, y)`, if it fits.
    pub fn spawn_fast_forward_force_field(&mut self, x: usize, y: usize)
        requires
            old(self).wf(),
        ensures
            final(self).wf(),
            final(self).is_stamped_from(old(self), Pattern::FastForwardForceField, x as int, y as int),
    {
        self.spawn_pattern(Pattern::FastForwardForceField, x, y);
    }

    /// Places a glider loop at `(x, y)`, if it fits.
    pub fn spawn_glider_loop(&mut self, x: usize, y: usize)
        requires
            old(self).wf(),
        ensures
            final(self).wf(),
            final(self).is_stamped_from(old(self), Pattern::GliderLoop, x as int, y as int),
    {
        self.spawn_pattern(Pattern::GliderLoop, x, y);
    }
}

} // verus!
