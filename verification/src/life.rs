//! How three well-known patterns behave under the rule: the block stays, the
//! blinker turns and returns, the glider travels.

use vstd::prelude::*;

use crate::cell_state::CellState;
use crate::grid::{one_if, Grid};
use crate::pattern::Pattern;

verus! {

impl Grid {
    /// Whether the live cells of this grid are exactly those of the pattern
    /// anchored at `(x, y)`. As only cells within the grid can be alive, the
    /// pattern then lies within the grid with every one of its cells.
    pub open spec fn shows(&self, pattern: Pattern, x: int, y: int) -> bool {
        forall|a: int, b: int| self.alive_at(a, b) <==> pattern.covers(a - x, b - y)
    }

    /// A pattern placed on a grid without a live cell is all that the grid
    /// shows.
    pub proof fn lemma_stamp_shows(&self, before: &Grid, pattern: Pattern, x: int, y: int)
        requires
            self.is_stamped_from(before, pattern, x, y),
            before.fits(pattern, x, y),
            forall|a: int, b: int| !before.alive_at(a, b),
        ensures
            self.shows(pattern, x, y),
    {
    }

    /// What the rule makes of the cell at `(x, y)`, read off the cell and the
    /// eight positions around it: it lives on with two or three live
    /// neighbours and is born with three.
    pub proof fn lemma_rule_at(&self, x: int, y: int)
        requires
            self.in_bounds(x, y),
        ensures
            self.state_at(x, y).successor(self.alive_neighbor_count(x, y)) == CellState::Alive
                <==> self.alive_neighbor_count(x, y) == 3 || (self.alive_at(x, y)
                && self.alive_neighbor_count(x, y) == 2),
            self.alive_neighbor_count(x, y) == one_if(self.alive_at(x - 1, y)) + one_if(
                self.alive_at(x + 1, y),
            ) + one_if(self.alive_at(x, y - 1)) + one_if(self.alive_at(x, y + 1)) + one_if(
                self.alive_at(x - 1, y - 1),
            ) + one_if(self.alive_at(x + 1, y - 1)) + one_if(self.alive_at(x - 1, y + 1)) + one_if(
                self.alive_at(x + 1, y + 1),
            ),
    {
    }

    /// In the generation that follows, a cell is alive exactly if the rule
    /// says so of its state and its live neighbours now.
    pub proof fn lemma_successor_at(&self, before: &Grid, x: int, y: int)
        requires
            self.is_successor_of(before),
        ensures
            self.alive_at(x, y) <==> before.in_bounds(x, y) && before.state_at(x, y).successor(
                before.alive_neighbor_count(x, y),
            ) == CellState::Alive,
    {
        if before.in_bounds(x, y) {
            assert(self.state_at(x, y) == before.state_at(x, y).successor(
                before.alive_neighbor_count(x, y),
            ));
        }
    }
}

/// The block covers the square of four cells at the anchor, to its right,
/// below it, and below that to the right.
pub proof fn lemma_block_shape(dx: int, dy: int)
    ensures
        Pattern::Block.covers(dx, dy) <==> 0 <= dx <= 1 && 0 <= dy <= 1,
{
    let cells = Pattern::Block.offsets();
    assert(cells[0] == (0int, 0int));
    assert(cells[1] == (0int, 1int));
    assert(cells[2] == (1int, 0int));
    assert(cells[3] == (1int, 1int));
}

/// The blinker covers the anchor, the cell above it and the cell below it.
pub proof fn lemma_blinker_shape(dx: int, dy: int)
    ensures
        Pattern::Blinker.covers(dx, dy) <==> dx == 0 && -1 <= dy <= 1,
{
    let cells = Pattern::Blinker.offsets();
    assert(cells[0] == (0int, -1int));
    assert(cells[1] == (0int, 0int));
    assert(cells[2] == (0int, 1int));
}

/// The glider covers the cell above the anchor, the cell to its right, and
/// the row of three below it.
pub proof fn lemma_glider_shape(dx: int, dy: int)
    ensures
        Pattern::Glider.covers(dx, dy) <==> (dx == 0 && dy == -1) || (dx == 1 && dy == 0) || (-1
            <= dx <= 1 && dy == 1),
{
    let cells = Pattern::Glider.offsets();
    assert(cells[0] == (0int, -1int));
    assert(cells[1] == (1int, 0int));
    assert(cells[2] == (0int, 1int));
    assert(cells[3] == (-1int, 1int));
    assert(cells[4] == (1int, 1int));
}

/// Among the cells of a grid that shows a block and nothing else, the rule
/// keeps each as it is.
proof fn lemma_block_cell(before: &Grid, x: int, y: int, a: int, b: int)
    requires
        forall|p: int, q: int| before.alive_at(p, q) <==> x <= p <= x + 1 && y <= q <= y + 1,
        before.in_bounds(a, b),
    ensures
        before.state_at(a, b).successor(before.alive_neighbor_count(a, b)) == CellState::Alive
            <==> before.alive_at(a, b),
{
    before.lemma_rule_at(a, b);
    if a < x - 1 || a > x + 2 || b < y - 1 || b > y + 2 {
    } else if a == x - 1 {
    } else if a == x {
    } else if a == x + 1 {
    } else {
    }
}

/// A grid shows a block and nothing else exactly if its live cells are those
/// of the square of four at the anchor.
proof fn lemma_shows_block(grid: &Grid, x: int, y: int)
    ensures
        grid.shows(Pattern::Block, x, y) <==> (forall|p: int, q: int|
            grid.alive_at(p, q) <==> x <= p <= x + 1 && y <= q <= y + 1),
{
    if grid.shows(Pattern::Block, x, y) {
        assert forall|p: int, q: int|
            grid.alive_at(p, q) <==> x <= p <= x + 1 && y <= q <= y + 1 by {
            lemma_block_shape(p - x, q - y);
        }
    }
    if forall|p: int, q: int| grid.alive_at(p, q) <==> x <= p <= x + 1 && y <= q <= y + 1 {
        assert forall|p: int, q: int|
            grid.alive_at(p, q) <==> Pattern::Block.covers(p - x, q - y) by {
            lemma_block_shape(p - x, q - y);
        }
    }
}

/// The generation that follows a block and nothing else has the same live
/// cells.
proof fn lemma_block_step(before: &Grid, after: &Grid, x: int, y: int)
    requires
        after.is_successor_of(before),
        forall|p: int, q: int| before.alive_at(p, q) <==> x <= p <= x + 1 && y <= q <= y + 1,
    ensures
        forall|p: int, q: int| #[trigger] after.alive_at(p, q) <==> before.alive_at(p, q),
{
    assert forall|p: int, q: int| #[trigger] after.alive_at(p, q) <==> before.alive_at(p, q) by {
        after.lemma_successor_at(before, p, q);
        if before.in_bounds(p, q) {
            lemma_block_cell(before, x, y, p, q);
        }
    }
}

/// A block is a still life: where a grid shows a block and nothing else, the
/// generation that follows has every cell in the state it had.
pub proof fn lemma_block_is_still(before: &Grid, after: &Grid, x: int, y: int)
    requires
        before.wf(),
        after.wf(),
        after.is_successor_of(before),
        before.shows(Pattern::Block, x, y),
    ensures
        after@ == before@,
        after.shows(Pattern::Block, x, y),
{
    lemma_shows_block(before, x, y);
    lemma_block_step(before, after, x, y);
    lemma_same_life(after, before);
    lemma_shows_block(after, x, y);
}

/// Whether each grid of the sequence but the first is the generation that
/// follows the grid before it.
pub open spec fn is_history(grids: Seq<Grid>) -> bool {
    forall|i: int| 0 < i < grids.len() ==> (#[trigger] grids[i]).is_successor_of(&grids[i - 1])
}

/// A block stays for any number of generations: in a history that starts with
/// a block and nothing else, every generation holds the cells of the first.
pub proof fn lemma_block_stays(grids: Seq<Grid>, x: int, y: int, n: int)
    requires
        is_history(grids),
        forall|i: int| 0 <= i < grids.len() ==> (#[trigger] grids[i]).wf(),
        0 <= n < grids.len(),
        grids[0].shows(Pattern::Block, x, y),
    ensures
        grids[n]@ == grids[0]@,
        grids[n].shows(Pattern::Block, x, y),
    decreases n,
{
    if n > 0 {
        lemma_block_stays(grids, x, y, n - 1);
        assert(grids[n].is_successor_of(&grids[n - 1]));
        lemma_block_is_still(&grids[n - 1], &grids[n], x, y);
    }
}

/// Whether `(dx, dy)` from the middle is one of the three cells of a row.
pub open spec fn in_row_of_three(dx: int, dy: int) -> bool {
    dy == 0 && -1 <= dx <= 1
}

/// Among the cells of a grid that shows an upright blinker and nothing else,
/// the rule makes those alive that lie in the row of three through its
/// middle.
proof fn lemma_upright_cell(before: &Grid, x: int, y: int, a: int, b: int)
    requires
        forall|p: int, q: int| before.alive_at(p, q) <==> in_row_of_three(q - y, p - x),
        before.in_bounds(a, b),
    ensures
        before.state_at(a, b).successor(before.alive_neighbor_count(a, b)) == CellState::Alive
            <==> in_row_of_three(a - x, b - y),
{
    before.lemma_rule_at(a, b);
    if a < x - 1 || a > x + 1 || b < y - 2 || b > y + 2 {
    } else if a == x - 1 {
    } else if a == x {
    } else {
    }
}

/// Among the cells of a grid that shows a row of three and nothing else, the
/// rule makes those alive that lie in the column of three through its middle.
proof fn lemma_level_cell(before: &Grid, x: int, y: int, a: int, b: int)
    requires
        forall|p: int, q: int| before.alive_at(p, q) <==> in_row_of_three(p - x, q - y),
        before.in_bounds(a, b),
    ensures
        before.state_at(a, b).successor(before.alive_neighbor_count(a, b)) == CellState::Alive
            <==> in_row_of_three(b - y, a - x),
{
    before.lemma_rule_at(a, b);
    if b < y - 1 || b > y + 1 || a < x - 2 || a > x + 2 {
    } else if b == y - 1 {
    } else if b == y {
    } else {
    }
}

/// A blinker turns and returns. Where a grid shows an upright blinker at
/// `(x, y)` and nothing else, and has a cell to the left and to the right of
/// its middle, the next generation shows the row of three through `(x, y)`
/// and nothing else, and the generation after that holds the cells of the
/// first.
pub proof fn lemma_blinker_turns_and_returns(
    first: &Grid,
    second: &Grid,
    third: &Grid,
    x: int,
    y: int,
)
    requires
        first.wf(),
        third.wf(),
        second.is_successor_of(first),
        third.is_successor_of(second),
        first.shows(Pattern::Blinker, x, y),
        first.in_bounds(x - 1, y),
        first.in_bounds(x + 1, y),
    ensures
        forall|p: int, q: int| #[trigger] second.alive_at(p, q) <==> q == y && x - 1 <= p <= x + 1,
        third@ == first@,
        third.shows(Pattern::Blinker, x, y),
{
    assert forall|p: int, q: int| #[trigger]
        first.alive_at(p, q) <==> in_row_of_three(q - y, p - x) by {
        lemma_blinker_shape(p - x, q - y);
    }
    assert(first.alive_at(x, y - 1) && first.alive_at(x, y + 1)) by {
        assert(in_row_of_three((y - 1) - y, x - x));
        assert(in_row_of_three((y + 1) - y, x - x));
    }
    assert forall|p: int, q: int| #[trigger]
        second.alive_at(p, q) <==> in_row_of_three(p - x, q - y) by {
        second.lemma_successor_at(first, p, q);
        if first.in_bounds(p, q) {
            lemma_upright_cell(first, x, y, p, q);
        }
    }
    assert forall|p: int, q: int| #[trigger]
        third.alive_at(p, q) <==> in_row_of_three(q - y, p - x) by {
        third.lemma_successor_at(second, p, q);
        if second.in_bounds(p, q) {
            lemma_level_cell(second, x, y, p, q);
        }
    }
    assert forall|p: int, q: int| #[trigger] third.alive_at(p, q) <==> first.alive_at(p, q) by {}
    lemma_same_life(third, first);
    assert forall|p: int, q: int| #[trigger]
        third.alive_at(p, q) <==> Pattern::Blinker.covers(p - x, q - y) by {
        lemma_blinker_shape(p - x, q - y);
    }
}

/// The four shapes that a glider takes in turn, each as the offsets of its
/// live cells from the anchor. The first is the glider as it is placed; after
/// the fourth comes the first again, one cell further down and to the right.
pub open spec fn glider_phase(phase: int, dx: int, dy: int) -> bool {
    if phase == 0 {
        (dx == 0 && dy == -1) || (dx == 1 && dy == 0) || (-1 <= dx <= 1 && dy == 1)
    } else if phase == 1 {
        (dx == -1 && dy == 0) || (dx == 1 && dy == 0) || (0 <= dx <= 1 && dy == 1) || (dx == 0
            && dy == 2)
    } else if phase == 2 {
        (dx == 1 && dy == 0) || (dx == -1 && dy == 1) || (dx == 1 && dy == 1) || (0 <= dx <= 1
            && dy == 2)
    } else if phase == 3 {
        (dx == 0 && dy == 0) || (1 <= dx <= 2 && dy == 1) || (0 <= dx <= 1 && dy == 2)
    } else {
        (dx == 1 && dy == 0) || (dx == 2 && dy == 1) || (0 <= dx <= 2 && dy == 2)
    }
}

/// Among the cells of a grid that shows a glider in one of its four shapes
/// and nothing else, the rule makes those alive that belong to the next
/// shape, or would do so if the grid held them.
proof fn lemma_glider_cell(before: &Grid, phase: int, x: int, y: int, a: int, b: int)
    requires
        0 <= phase <= 3,
        forall|p: int, q: int| before.alive_at(p, q) <==> glider_phase(phase, p - x, q - y),
        before.in_bounds(a, b),
    ensures
        before.state_at(a, b).successor(before.alive_neighbor_count(a, b)) == CellState::Alive
            <==> glider_phase(phase + 1, a - x, b - y),
{
    before.lemma_rule_at(a, b);
    if a < x - 2 || a > x + 3 || b < y - 2 || b > y + 3 {
    } else if a == x - 2 {
    } else if a == x - 1 {
    } else if a == x {
    } else if a == x + 1 {
    } else if a == x + 2 {
    } else {
    }
}

/// One generation takes a glider from one of its shapes to the next, where
/// the grid holds every cell of the next shape.
proof fn lemma_glider_step(before: &Grid, after: &Grid, phase: int, x: int, y: int)
    requires
        0 <= phase <= 3,
        after.is_successor_of(before),
        forall|p: int, q: int| #[trigger]
            before.alive_at(p, q) <==> glider_phase(phase, p - x, q - y),
        before.in_bounds(x - 1, y - 1),
        before.in_bounds(x + 2, y + 2),
    ensures
        forall|p: int, q: int| #[trigger]
            after.alive_at(p, q) <==> glider_phase(phase + 1, p - x, q - y),
{
    assert forall|p: int, q: int| #[trigger]
        after.alive_at(p, q) <==> glider_phase(phase + 1, p - x, q - y) by {
        after.lemma_successor_at(before, p, q);
        if before.in_bounds(p, q) {
            lemma_glider_cell(before, phase, x, y, p, q);
        }
    }
}

/// A glider travels. Where a grid shows a glider at `(x, y)` and nothing
/// else, and holds the cells from one column to the left of `(x, y)` to two
/// columns to its right and from one row above it to two rows below, the
/// fourth generation after it shows the glider at `(x + 1, y + 1)` and
/// nothing else.
pub proof fn lemma_glider_travels(grids: Seq<Grid>, x: int, y: int)
    requires
        grids.len() == 5,
        is_history(grids),
        grids[0].shows(Pattern::Glider, x, y),
        grids[0].in_bounds(x - 1, y - 1),
        grids[0].in_bounds(x + 2, y + 2),
    ensures
        grids[4].shows(Pattern::Glider, x + 1, y + 1),
{
    assert forall|p: int, q: int| #[trigger]
        grids[0].alive_at(p, q) <==> glider_phase(0, p - x, q - y) by {
        lemma_glider_shape(p - x, q - y);
    }
    assert(grids[1].is_successor_of(&grids[0]));
    assert(grids[2].is_successor_of(&grids[1]));
    assert(grids[3].is_successor_of(&grids[2]));
    assert(grids[4].is_successor_of(&grids[3]));
    lemma_glider_step(&grids[0], &grids[1], 0, x, y);
    lemma_glider_step(&grids[1], &grids[2], 1, x, y);
    lemma_glider_step(&grids[2], &grids[3], 2, x, y);
    lemma_glider_step(&grids[3], &grids[4], 3, x, y);
    assert forall|p: int, q: int| #[trigger]
        grids[4].alive_at(p, q) <==> Pattern::Glider.covers(p - (x + 1), q - (y + 1)) by {
        lemma_glider_shape(p - (x + 1), q - (y + 1));
    }
}

/// Two grids of one size with the same live cells hold the same cells.
pub proof fn lemma_same_life(one: &Grid, other: &Grid)
    requires
        one.wf(),
        other.wf(),
        one.width() == other.width(),
        one.height() == other.height(),
        forall|a: int, b: int| #[trigger] one.alive_at(a, b) <==> other.alive_at(a, b),
    ensures
        one@ == other@,
{
    assert forall|a: int| 0 <= a < one@.len() implies one@[a] =~= other@[a] by {
        assert forall|b: int| 0 <= b < one@[a].len() implies one@[a][b] == other@[a][b] by {
            assert(one@[a][b].id == one.label(a, b));
            assert(other@[a][b].id == other.label(a, b));
            assert(one.alive_at(a, b) <==> other.alive_at(a, b));
        }
    }
    assert(one@ =~= other@);
}

} // verus!
