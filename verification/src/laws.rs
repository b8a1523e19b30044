//! What holds of the grid whatever its size and state.

use vstd::prelude::*;

use crate::grid::{one_if, Grid};
use crate::pattern::Pattern;
use crate::render::{blank_text, lemma_row_major, ALIVE_GLYPH, DEAD_GLYPH};

verus! {

/// The flat buffer and the rendered text agree cell for cell: the buffer has
/// one entry for each cell, the text one glyph for each cell and a line break
/// after each row, and the entry of a cell is `true` exactly where its glyph
/// is that of a live cell.
pub proof fn lemma_cells_agree_with_text(grid: &Grid, x: int, y: int)
    requires
        grid.in_bounds(x, y),
    ensures
        grid.flat_cells().len() == grid.width() * grid.height(),
        grid.text(ALIVE_GLYPH, DEAD_GLYPH).len() == grid.height() * (grid.width() + 1),
        0 <= y * grid.width() + x < grid.flat_cells().len(),
        0 <= y * (grid.width() + 1) + x < grid.text(ALIVE_GLYPH, DEAD_GLYPH).len(),
        grid.flat_cells()[y * grid.width() + x] == grid.alive_at(x, y),
        grid.flat_cells()[y * grid.width() + x] <==> grid.text(ALIVE_GLYPH, DEAD_GLYPH)[y * (
        grid.width() + 1) + x] == ALIVE_GLYPH,
        grid.text(ALIVE_GLYPH, DEAD_GLYPH)[y * (grid.width() + 1) + grid.width()] == '\n',
{
    let width = grid.width() as int;
    let height = grid.height() as int;
    lemma_row_major(x, y, width, height);
    lemma_row_major(x, y, width + 1, height);
    lemma_row_major(width, y, width + 1, height);
    assert(height * width == width * height) by (nonlinear_arith);
}

/// The text of a grid without a live cell, as it is after a reset whatever
/// the grid held before: the glyph of a dead cell for every cell, a line
/// break after each row, and nothing else.
pub proof fn lemma_text_without_life(grid: &Grid)
    requires
        forall|x: int, y: int| !grid.alive_at(x, y),
    ensures
        grid.text(ALIVE_GLYPH, DEAD_GLYPH) == blank_text(
            grid.width() as nat,
            grid.height() as nat,
            DEAD_GLYPH,
        ),
        forall|i: int|
            0 <= i < grid.text(ALIVE_GLYPH, DEAD_GLYPH).len() ==> grid.text(
                ALIVE_GLYPH,
                DEAD_GLYPH,
            )[i] != ALIVE_GLYPH,
{
    assert(grid.text(ALIVE_GLYPH, DEAD_GLYPH) =~= blank_text(
        grid.width() as nat,
        grid.height() as nat,
        DEAD_GLYPH,
    ));
}

/// A cell has at most eight live neighbours, and eight where all the eight
/// positions around it hold a live cell.
pub proof fn lemma_count_when_surrounded(grid: &Grid, x: int, y: int)
    ensures
        grid.alive_neighbor_count(x, y) <= 8,
        (forall|a: int, b: int|
            x - 1 <= a <= x + 1 && y - 1 <= b <= y + 1 && !(a == x && b == y) ==> grid.alive_at(
                a,
                b,
            )) ==> grid.alive_neighbor_count(x, y) == 8,
{
}

/// Positions outside the grid never count. A cell in a corner of the grid has
/// at most three live neighbours, and a cell on an edge at most five.
pub proof fn lemma_count_at_the_border(grid: &Grid, x: int, y: int)
    requires
        grid.in_bounds(x, y),
    ensures
        x == 0 || x == grid.width() - 1 || y == 0 || y == grid.height() - 1
            ==> grid.alive_neighbor_count(x, y) <= 5,
        (x == 0 || x == grid.width() - 1) && (y == 0 || y == grid.height() - 1)
            ==> grid.alive_neighbor_count(x, y) <= 3,
        x == 0 && y == 0 ==> grid.alive_neighbor_count(x, y) == one_if(grid.alive_at(1, 0))
            + one_if(grid.alive_at(0, 1)) + one_if(grid.alive_at(1, 1)),
{
}

/// No pattern names a cell twice.
#[verifier::rlimit(60)]
pub proof fn lemma_offsets_are_distinct(pattern: Pattern, i: int, j: int)
    requires
        0 <= i < j < pattern.offsets().len(),
    ensures
        pattern.offsets()[i] != pattern.offsets()[j],
{
    match pattern {
        Pattern::Blinker => {},
        Pattern::Block => {},
        Pattern::BeeHive => {},
        Pattern::Loaf => {},
        Pattern::Boat => {},
        Pattern::Toad => {},
        Pattern::Beacon => {},
        Pattern::Pulsar => {},
        Pattern::Pentadecathlon => {},
        Pattern::Glider => {},
        Pattern::LightSpaceship => {},
        Pattern::MiddleSpaceship => {},
        Pattern::HeavySpaceship => {},
        Pattern::Copperhead => {},
        Pattern::FastForwardForceField => {},
        Pattern::GliderGun => {},
        Pattern::RPentomino => {},
        Pattern::DieHard => {},
        Pattern::Acorn => {},
        Pattern::Almosymmetric => {},
        Pattern::GliderLoop => {},
        Pattern::InfiniteGrowth1 => {},
        Pattern::InfiniteGrowth2 => {},
    }
}

} // verus!
