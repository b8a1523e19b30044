//! Filling a grid by chance. The draws come from outside; what is done with
//! them is decided here, for every value they may take.

use rand::rngs::ThreadRng;
use vstd::prelude::*;

use crate::cell_state::CellState;
use crate::external::draw_between;
use crate::grid::{lemma_label_fits, Grid};

verus! {

/// What a drawn number stands for: zero for a live cell, anything else for
/// a dead one.
pub fn draw_is_alive(number: i32) -> (alive: bool)
    ensures
        alive == (number == 0),
{
    number == 0
}

/// Draws one boolean from the generator: a number that is zero or one, read
/// by [`draw_is_alive`]. Which of the two comes back depends on chance.
pub fn random_bool(rng: &mut ThreadRng) -> bool {
    draw_is_alive(draw_between(rng, 0, 1))
}

/// Draws `count` booleans from the generator.
pub fn random_bools(rng: &mut ThreadRng, count: usize) -> (draws: Vec<bool>)
    ensures
        draws@.len() == count,
{
    let mut draws: Vec<bool> = Vec::new();
    for i in 0..count
        invariant
            draws@.len() == i,
    {
        let alive = random_bool(rng);
        draws.push(alive);
    }
    draws
}

impl Grid {
    /// The place of the cell at `(x, y)` in a sequence of draws: the draws
    /// run down the first column, then down the second, and so on.
    pub open spec fn draw_index(&self, x: int, y: int) -> int {
        x * self.height() + y
    }

    /// Whether `(x, y)` lies in the middle part of the grid: less than a
    /// quarter of the width to the left or right of the middle column, and
    /// less than a quarter of the height above or below the middle row.
    pub open spec fn in_center(&self, x: int, y: int) -> bool {
        &&& self.in_bounds(x, y)
        &&& self.width() / 2 - self.width() / 4 < x < self.width() / 2 + self.width() / 4
        &&& self.height() / 2 - self.height() / 4 < y < self.height() / 2 + self.height() / 4
    }

    /// A grid has at most as many cells as there are labels.
    pub proof fn lemma_cell_count_fits(&self)
        requires
            self.wf(),
        ensures
            self.width() * self.height() <= u32::MAX,
    {
        if self.width() > 0 && self.height() > 0 {
            let x = self.width() - 1;
            let y = self.height() - 1;
            assert(self@[x][y].id == self.label(x, y));
            assert((self.width() - 1) * self.height() + self.height() == self.width()
                * self.height()) by (nonlinear_arith);
        } else {
            assert(self.width() * self.height() == 0) by (nonlinear_arith)
                requires
                    self.width() == 0 || self.height() == 0,
            ;
        }
    }

    /// Whether the cell at `(x, y)` is among those that a drawing sets.
    pub open spec fn drawn(&self, center_only: bool, x: int, y: int) -> bool {
        if center_only {
            self.in_center(x, y)
        } else {
            self.in_bounds(x, y)
        }
    }

    /// Whether this grid is `before` with the given draws applied: each cell
    /// that the drawing sets is alive exactly if its draw is `true`, and every
    /// other cell is as it was.
    pub open spec fn is_drawn_from(&self, before: &Grid, draws: Seq<bool>, center_only: bool) -> bool {
        &&& self.width() == before.width()
        &&& self.height() == before.height()
        &&& forall|x: int, y: int|
            before.in_bounds(x, y) ==> (#[trigger] self.alive_at(x, y)) == if before.drawn(
                center_only,
                x,
                y,
            ) {
                draws[before.draw_index(x, y)]
            } else {
                before.alive_at(x, y)
            }
    }

    fn apply_draws(&mut self, draws: &Vec<bool>, center_only: bool)
        requires
            old(self).wf(),
            draws@.len() == old(self).width() * old(self).height(),
        ensures
            final(self).wf(),
            final(self).is_drawn_from(old(self), draws@, center_only),
    {
        let width = self.width();
        let height = self.height();
        assert(0 * height == 0) by (nonlinear_arith);
        for x in 0..width
            invariant
                self.wf(),
                self.width() == old(self).width() == width,
                self.height() == old(self).height() == height,
                draws@.len() == width * height,
                forall|i: int, j: int|
                    0 <= i < x && 0 <= j < height ==> (#[trigger] self.alive_at(i, j)) == if old(self).drawn(center_only, i, j) {
                        draws@[old(self).draw_index(i, j)]
                    } else {
                        old(self).alive_at(i, j)
                    },
                forall|i: int, j: int|
                    x <= i < width && 0 <= j < height ==> (#[trigger] self.alive_at(i, j)) == old(self).alive_at(i, j),
        {
            for y in 0..height
                invariant
                    self.wf(),
                    x < width,
                    self.width() == old(self).width() == width,
                    self.height() == old(self).height() == height,
                    draws@.len() == width * height,
                    forall|i: int, j: int|
                        (0 <= i < x && 0 <= j < height) || (i == x && 0 <= j < y) ==> (
                        #[trigger] self.alive_at(i, j)) == if old(self).drawn(center_only, i, j) {
                            draws@[old(self).draw_index(i, j)]
                        } else {
                            old(self).alive_at(i, j)
                        },
                    forall|i: int, j: int|
                        (x < i < width && 0 <= j < height) || (i == x && y <= j < height) ==> (
                        #[trigger] self.alive_at(i, j)) == old(self).alive_at(i, j),
            {
                proof {
                    lemma_label_fits(x as int, y as int, width as int, height as int);
                    self.lemma_cell_count_fits();
                }
                let chosen = !center_only || (y > height / 2 - height / 4 && x < width / 2 + width
                    / 4 && x > width / 2 - width / 4 && y < height / 2 + height / 4);
                if chosen {
                    let alive = draws[x * height + y];
                    let ghost before = *self;
                    self.update_cell(x, y, CellState::from_bool(alive));
                    proof {
                        assert forall|i: int, j: int| !(i == x && j == y) implies (
                        #[trigger] self.alive_at(i, j)) == before.alive_at(i, j) by {}
                    }
                }
            }
        }
    }

    /// Sets every cell by its draw: alive for `true`, dead for `false`. There
    /// must be one draw for each cell.
    pub fn randomize_from(&mut self, draws: &Vec<bool>)
        requires
            old(self).wf(),
            draws@.len() == old(self).width() * old(self).height(),
        ensures
            final(self).wf(),
            final(self).is_drawn_from(old(self), draws@, false),
    {
        self.apply_draws(draws, false);
    }

    /// Sets every cell of the middle part by its draw and leaves the others
    /// as they are. There must be one draw for each cell of the grid; those of
    /// the cells outside the middle part are not looked at.
    pub fn randomize_center_from(&mut self, draws: &Vec<bool>)
        requires
            old(self).wf(),
            draws@.len() == old(self).width() * old(self).height(),
        ensures
            final(self).wf(),
            final(self).is_drawn_from(old(self), draws@, true),
    {
        self.apply_draws(draws, true);
    }

    /// Sets every cell alive or dead by chance. Whatever is drawn, the size
    /// of the grid stays.
    pub fn randomize(&mut self)
        requires
            old(self).wf(),
        ensures
            final(self).wf(),
            final(self).width() == old(self).width(),
            final(self).height() == old(self).height(),
    {
        proof {
            self.lemma_cell_count_fits();
        }
        let mut rng = rand::thread_rng();
        let draws = random_bools(&mut rng, self.width() * self.height());
        self.randomize_from(&draws);
    }

    /// Sets every cell of the middle part alive or dead by chance. Whatever
    /// is drawn, the size of the grid stays, and so does every cell outside
    /// the middle part.
    pub fn randomize_center(&mut self)
        requires
            old(self).wf(),
        ensures
            final(self).wf(),
            final(self).width() == old(self).width(),
            final(self).height() == old(self).height(),
            forall|x: int, y: int|
                !old(self).in_center(x, y) ==> #[trigger] final(self).alive_at(x, y) == old(self).alive_at(x, y),
    {
        proof {
            self.lemma_cell_count_fits();
        }
        let mut rng = rand::thread_rng();
        let draws = random_bools(&mut rng, self.width() * self.height());
        self.randomize_center_from(&draws);
    }
}

} // verus!
