use vstd::arithmetic::div_mod::lemma_fundamental_div_mod_converse;
use vstd::prelude::*;

use crate::cell_state::CellState;
use crate::grid::Grid;

verus! {

/// The glyph that stands for a live cell in [`Grid::render`].
pub const ALIVE_GLYPH: char = '\u{25FB}';

/// The glyph that stands for a dead cell in [`Grid::render`].
pub const DEAD_GLYPH: char = '\u{25FC}';

/// In a table of `rows` rows of `stride` entries each, laid out row after
/// row, entry `x` of row `y` stands at `y * stride + x`, and no other entry
/// stands there.
pub proof fn lemma_row_major(x: int, y: int, stride: int, rows: int)
    requires
        0 <= x < stride,
        0 <= y < rows,
    ensures
        0 <= y * stride + x < rows * stride,
        (y * stride + x) / stride == y,
        (y * stride + x) % stride == x,
{
    assert(y * stride + stride <= rows * stride) by (nonlinear_arith)
        requires
            0 <= y < rows,
            0 <= stride,
    ;
    assert(0 <= y * stride) by (nonlinear_arith)
        requires
            0 <= y,
            0 <= stride,
    ;
    lemma_fundamental_div_mod_converse(y * stride + x, stride, y, x);
}

/// The text of `height` rows of `width` glyphs of a dead cell each, with a
/// line break after each row.
pub open spec fn blank_text(width: nat, height: nat, dead: char) -> Seq<char> {
    Seq::new(
        height * (width + 1),
        |i: int|
            if i % (width + 1) as int == width {
                '\n'
            } else {
                dead
            },
    )
}

impl Grid {
    /// The states of all cells as booleans, `true` for alive, row after row:
    /// the cell at `(x, y)` stands at `y * width + x`.
    pub open spec fn flat_cells(&self) -> Seq<bool> {
        Seq::new(
            (self.width() * self.height()) as nat,
            |i: int| self.alive_at(i % (self.width() as int), i / (self.width() as int)),
        )
    }

    /// The grid as text, row after row: one glyph for each cell of a row,
    /// then a line break. The cell at `(x, y)` stands at
    /// `y * (width + 1) + x`.
    pub open spec fn text(&self, alive: char, dead: char) -> Seq<char> {
        Seq::new(
            (self.height() * (self.width() + 1)) as nat,
            |i: int|
                {
                    let x = i % (self.width() + 1);
                    let y = i / (self.width() + 1);
                    if x == self.width() {
                        '\n'
                    } else if self.alive_at(x, y) {
                        alive
                    } else {
                        dead
                    }
                },
        )
    }

    /// The states of all cells, `true` for alive, in the order in which
    /// [`Grid::render`] writes them.
    pub fn get_cells(&self) -> (flat: Vec<bool>)
        requires
            self.wf(),
        ensures
            flat@ == self.flat_cells(),
            flat@.len() == self.width() * self.height(),
    {
        let width = self.width();
        let height = self.height();
        let mut flat: Vec<bool> = Vec::new();
        assert(0 * width == 0) by (nonlinear_arith);
        for y in 0..height
            invariant
                self.wf(),
                width == self.width(),
                height == self.height(),
                flat@ == self.flat_cells().take(y * width),
                y * width <= width * height,
        {
            for x in 0..width
                invariant
                    self.wf(),
                    y < height,
                    width == self.width(),
                    height == self.height(),
                    flat@ == self.flat_cells().take(y * width + x),
                    y * width + x <= width * height,
            {
                proof {
                    lemma_row_major(x as int, y as int, width as int, height as int);
                    assert(height * width == width * height) by (nonlinear_arith);
                }
                let cell = self.get_cell(x, y);
                match cell.state {
                    CellState::Alive => flat.push(true),
                    CellState::Dead => flat.push(false),
                }
                proof {
                    let k = y * width + x;
                    assert(self.flat_cells().take(k + 1) =~= self.flat_cells().take(k).push(
                        self.flat_cells()[k],
                    ));
                }
            }
            proof {
                assert((y + 1) * width == y * width + width) by (nonlinear_arith);
                assert((y + 1) * width <= height * width) by (nonlinear_arith)
                    requires
                        y < height,
                ;
                assert(height * width == width * height) by (nonlinear_arith);
            }
        }
        proof {
            assert(height * width == width * height) by (nonlinear_arith);
            assert(self.flat_cells().take(width * height) =~= self.flat_cells());
        }
        flat
    }

    /// The grid as text with the given two glyphs, in the layout of
    /// [`Grid::text`].
    pub fn render_with(&self, alive: char, dead: char) -> (text: String)
        requires
            self.wf(),
        ensures
            text@ == self.text(alive, dead),
    {
        let width = self.width();
        let height = self.height();
        let mut text = String::new();
        let ghost stride = width + 1;
        let ghost whole = self.text(alive, dead);
        assert(0 * stride == 0) by (nonlinear_arith);
        for y in 0..height
            invariant
                self.wf(),
                width == self.width(),
                height == self.height(),
                stride == width + 1,
                whole == self.text(alive, dead),
                text@ == whole.take(y * stride),
        {
            for x in 0..width
                invariant
                    self.wf(),
                    y < height,
                    width == self.width(),
                    height == self.height(),
                    stride == width + 1,
                    whole == self.text(alive, dead),
                    text@ == whole.take(y * stride + x),
            {
                proof {
                    lemma_row_major(x as int, y as int, stride, height as int);
                }
                let symbol = if self.get_cell(x, y).state == CellState::Alive {
                    alive
                } else {
                    dead
                };
                text.push(symbol);
                proof {
                    let k = y * stride + x;
                    assert(whole.take(k + 1) =~= whole.take(k).push(whole[k]));
                }
            }
            proof {
                lemma_row_major(width as int, y as int, stride, height as int);
            }
            text.push('\n');
            proof {
                let k = y * stride + width;
                assert(whole.take(k + 1) =~= whole.take(k).push(whole[k]));
                assert((y + 1) * stride == y * stride + width + 1) by (nonlinear_arith)
                    requires
                        stride == width + 1,
                ;
            }
        }
        proof {
            assert(whole.take(height * stride) =~= whole);
        }
        text
    }

    /// The grid as text: [`ALIVE_GLYPH`] for a live cell, [`DEAD_GLYPH`] for
    /// a dead one, and a line break after each row.
    pub fn render(&self) -> (text: String)
        requires
            self.wf(),
        ensures
            text@ == self.text(ALIVE_GLYPH, DEAD_GLYPH),
    {
        self.render_with(ALIVE_GLYPH, DEAD_GLYPH)
    }
}

} // verus!
