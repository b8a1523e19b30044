use vstd::prelude::*;

use crate::cell::Cell;
use crate::cell_state::CellState;

verus! {

/// A bounded rectangle of cells, stored column by column: `cells[x][y]`.
#[derive(Clone, Debug, PartialEq, Eq)]
pub struct Grid {
    cells: Vec<Vec<Cell>>,
    size_x: usize,
    size_y: usize,
}

impl View for Grid {
    type V = Seq<Seq<Cell>>;

    /// The columns of the grid: `self@[x][y]` is the cell at `(x, y)`.
    closed spec fn view(&self) -> Seq<Seq<Cell>> {
        Seq::new(self.cells@.len(), |x: int| self.cells@[x]@)
    }
}

impl Grid {
    pub closed spec fn spec_width(&self) -> usize {
        self.size_x
    }

    pub closed spec fn spec_height(&self) -> usize {
        self.size_y
    }

    /// The number of columns.
    #[verifier::when_used_as_spec(spec_width)]
    pub fn width(&self) -> (width: usize)
        ensures
            width == self.width(),
    {
        self.size_x
    }

    /// The number of rows.
    #[verifier::when_used_as_spec(spec_height)]
    pub fn height(&self) -> (height: usize)
        ensures
            height == self.height(),
    {
        self.size_y
    }

    /// The label of the cell at `(x, y)`: labels count from 1, down the first
    /// column, then down the second, and so on.
    pub open spec fn label(&self, x: int, y: int) -> int {
        x * self.height() + y + 1
    }

    pub open spec fn in_bounds(&self, x: int, y: int) -> bool {
        0 <= x < self.width() && 0 <= y < self.height()
    }

    /// The grid holds exactly one cell for each position within its bounds,
    /// and each cell bears the label of its position.
    pub open spec fn wf(&self) -> bool {
        &&& self@.len() == self.width()
        &&& forall|x: int| 0 <= x < self.width() ==> (#[trigger] self@[x]).len() == self.height()
        &&& forall|x: int, y: int|
            self.in_bounds(x, y) ==> (#[trigger] self@[x][y]).id == self.label(x, y)
    }

    /// The state of the cell at `(x, y)`, which must lie within the grid.
    pub open spec fn state_at(&self, x: int, y: int) -> CellState
        recommends
            self.in_bounds(x, y),
    {
        self@[x][y].state
    }

    /// Whether there is a cell at `(x, y)` and it is alive. Positions outside
    /// the grid hold no cell, so nothing is alive there.
    pub open spec fn alive_at(&self, x: int, y: int) -> bool {
        self.in_bounds(x, y) && self@[x][y].state == CellState::Alive
    }

    pub fn new(size_x: usize, size_y: usize) -> (grid: Self)
        requires
            size_x * size_y <= u32::MAX,
        ensures
            grid.wf(),
            grid.width() == size_x,
            grid.height() == size_y,
            forall|x: int, y: int| !#[trigger] grid.alive_at(x, y),
            forall|x: int, y: int|
                grid.in_bounds(x, y) ==> (#[trigger] grid@[x][y]).state == CellState::Dead,
    {
        let mut cells: Vec<Vec<Cell>> = Vec::new();
        let mut count: u32 = 0;
        assert(0 * size_y == 0) by (nonlinear_arith);
        for x in 0..size_x
            invariant
                size_x * size_y <= u32::MAX,
                cells@.len() == x,
                count == x * size_y,
                forall|i: int| 0 <= i < x ==> (#[trigger] cells@[i])@.len() == size_y,
                forall|i: int, j: int|
                    0 <= i < x && 0 <= j < size_y ==> {
                        &&& (#[trigger] cells@[i]@[j]).id == i * size_y + j + 1
                        &&& cells@[i]@[j].state == CellState::Dead
                    },
        {
            let mut tmp: Vec<Cell> = Vec::new();
            for y in 0..size_y
                invariant
                    size_x * size_y <= u32::MAX,
                    x < size_x,
                    tmp@.len() == y,
                    count == x * size_y + y,
                    forall|j: int|
                        0 <= j < y ==> {
                            &&& (#[trigger] tmp@[j]).id == x * size_y + j + 1
                            &&& tmp@[j].state == CellState::Dead
                        },
            {
                proof {
                    lemma_label_fits(x as int, y as int, size_x as int, size_y as int);
                }
                count += 1;
                let cell = Cell { id: count, state: CellState::Dead };
                tmp.push(cell);
            }
            assert((x + 1) * size_y == x * size_y + size_y) by (nonlinear_arith);
            cells.push(tmp);
        }
        let grid = Grid { cells, size_x, size_y };
        proof {
            assert forall|x: int, y: int| grid.in_bounds(x, y) implies {
                &&& (#[trigger] grid@[x][y]).id == grid.label(x, y)
                &&& grid@[x][y].state == CellState::Dead
            } by {
                assert(grid@[x][y] == cells@[x]@[y]);
            }
        }
        grid
    }

    /// The cells of this grid with the state of the cell at `(x, y)` replaced.
    /// A position outside the grid holds no cell: the cells are then as they were.
    pub open spec fn with_state(&self, x: int, y: int, state: CellState) -> Seq<Seq<Cell>> {
        if self.in_bounds(x, y) {
            self@.update(x, self@[x].update(y, Cell { id: self@[x][y].id, state }))
        } else {
            self@
        }
    }

    /// Sets the state of the cell at `(x, y)`. A position outside the grid is
    /// ignored.
    pub fn update_cell(&mut self, x: usize, y: usize, state: CellState)
        requires
            old(self).wf(),
        ensures
            final(self).wf(),
            final(self).width() == old(self).width(),
            final(self).height() == old(self).height(),
            final(self)@ == old(self).with_state(x as int, y as int, state),
    {
        if x < self.size_x && y < self.size_y {
            assert(self@[x as int] == self.cells@[x as int]@);
            self.cells[x][y].state = state;
            proof {
                assert(final(self)@ =~~= old(self).with_state(x as int, y as int, state));
            }
        }
    }

    /// Prepares a new grid for use. A new grid needs nothing more, so this
    /// leaves it as it is.
    pub fn init(&mut self)
        ensures
            *final(self) == *old(self),
    {
    }

    /// The cell at `(x, y)` as a sequence of one cell, or of none where the
    /// position lies outside the grid.
    pub open spec fn cell_if_any(&self, x: int, y: int) -> Seq<Cell> {
        if self.in_bounds(x, y) {
            seq![self@[x][y]]
        } else {
            Seq::empty()
        }
    }

    /// The neighbours of `(x, y)` that exist, in a fixed order: left, right,
    /// up, down, upper left, upper right, lower left, lower right. A position
    /// outside the grid has none.
    pub open spec fn neighbors(&self, x: int, y: int) -> Seq<Cell> {
        if self.in_bounds(x, y) {
            self.cell_if_any(x - 1, y) + self.cell_if_any(x + 1, y) + self.cell_if_any(x, y - 1)
                + self.cell_if_any(x, y + 1) + self.cell_if_any(x - 1, y - 1) + self.cell_if_any(
                x + 1,
                y - 1,
            ) + self.cell_if_any(x - 1, y + 1) + self.cell_if_any(x + 1, y + 1)
        } else {
            Seq::empty()
        }
    }

    /// How many of the eight positions around `(x, y)` hold a live cell.
    pub open spec fn alive_neighbor_count(&self, x: int, y: int) -> nat {
        one_if(self.alive_at(x - 1, y)) + one_if(self.alive_at(x + 1, y)) + one_if(
            self.alive_at(x, y - 1),
        ) + one_if(self.alive_at(x, y + 1)) + one_if(self.alive_at(x - 1, y - 1)) + one_if(
            self.alive_at(x + 1, y - 1),
        ) + one_if(self.alive_at(x - 1, y + 1)) + one_if(self.alive_at(x + 1, y + 1))
    }

    /// The neighbours of `(x, y)` that exist, in the order of
    /// [`Grid::neighbors`].
    pub fn get_neighbors(&self, x: usize, y: usize) -> (neighbors: Vec<Cell>)
        requires
            self.wf(),
        ensures
            neighbors@ == self.neighbors(x as int, y as int),
    {
        let mut neighbors: Vec<Cell> = Vec::new();
        if x < self.size_x && y < self.size_y {
            proof {
                assert forall|i: int| 0 <= i < self.width() implies (#[trigger] self.cells@[i])@
                    == self@[i] by {}
            }
            let ghost xi = x as int;
            let ghost yi = y as int;
            if x > 0 {
                neighbors.push(self.cells[x - 1][y]);
            }
            let ghost s1 = self.cell_if_any(xi - 1, yi);
            assert(neighbors@ =~= s1);
            if x + 1 < self.size_x {
                neighbors.push(self.cells[x + 1][y]);
            }
            let ghost s2 = s1 + self.cell_if_any(xi + 1, yi);
            assert(neighbors@ =~= s2);
            if y > 0 {
                neighbors.push(self.cells[x][y - 1]);
            }
            let ghost s3 = s2 + self.cell_if_any(xi, yi - 1);
            assert(neighbors@ =~= s3);
            if y + 1 < self.size_y {
                neighbors.push(self.cells[x][y + 1]);
            }
            let ghost s4 = s3 + self.cell_if_any(xi, yi + 1);
            assert(neighbors@ =~= s4);
            if x > 0 && y > 0 {
                neighbors.push(self.cells[x - 1][y - 1]);
            }
            let ghost s5 = s4 + self.cell_if_any(xi - 1, yi - 1);
            assert(neighbors@ =~= s5);
            if x + 1 < self.size_x && y > 0 {
                neighbors.push(self.cells[x + 1][y - 1]);
            }
            let ghost s6 = s5 + self.cell_if_any(xi + 1, yi - 1);
            assert(neighbors@ =~= s6);
            if x > 0 && y + 1 < self.size_y {
                neighbors.push(self.cells[x - 1][y + 1]);
            }
            let ghost s7 = s6 + self.cell_if_any(xi - 1, yi + 1);
            assert(neighbors@ =~= s7);
            if x + 1 < self.size_x && y + 1 < self.size_y {
                neighbors.push(self.cells[x + 1][y + 1]);
            }
            assert(neighbors@ =~= s7 + self.cell_if_any(xi + 1, yi + 1));
        }
        neighbors
    }

    /// The number of live cells among the neighbours of `(x, y)`, which must
    /// lie within the grid. Positions outside the grid never count.
    pub fn alive_neighbors(&self, x: usize, y: usize) -> (count: usize)
        requires
            self.wf(),
            self.in_bounds(x as int, y as int),
        ensures
            count == self.alive_neighbor_count(x as int, y as int),
            count <= 8,
    {
        let neighbors = self.get_neighbors(x, y);
        let mut count: usize = 0;
        for i in 0..neighbors.len()
            invariant
                count == alive_count(neighbors@.take(i as int)),
                count <= i,
        {
            proof {
                assert(neighbors@.take(i + 1).drop_last() =~= neighbors@.take(i as int));
            }
            if neighbors[i].state == CellState::Alive {
                count += 1;
            }
        }
        proof {
            assert(neighbors@.take(neighbors@.len() as int) =~= neighbors@);
            self.lemma_alive_neighbors(x as int, y as int);
        }
        count
    }

    /// Counting the live cells among the neighbours that exist gives the
    /// number of live positions around `(x, y)`.
    pub proof fn lemma_alive_neighbors(&self, x: int, y: int)
        requires
            self.in_bounds(x, y),
        ensures
            alive_count(self.neighbors(x, y)) == self.alive_neighbor_count(x, y),
            self.alive_neighbor_count(x, y) <= 8,
    {
        let s1 = self.cell_if_any(x - 1, y);
        let s2 = s1 + self.cell_if_any(x + 1, y);
        let s3 = s2 + self.cell_if_any(x, y - 1);
        let s4 = s3 + self.cell_if_any(x, y + 1);
        let s5 = s4 + self.cell_if_any(x - 1, y - 1);
        let s6 = s5 + self.cell_if_any(x + 1, y - 1);
        let s7 = s6 + self.cell_if_any(x - 1, y + 1);
        self.lemma_alive_count_one(x - 1, y);
        self.lemma_alive_count_one(x + 1, y);
        self.lemma_alive_count_one(x, y - 1);
        self.lemma_alive_count_one(x, y + 1);
        self.lemma_alive_count_one(x - 1, y - 1);
        self.lemma_alive_count_one(x + 1, y - 1);
        self.lemma_alive_count_one(x - 1, y + 1);
        self.lemma_alive_count_one(x + 1, y + 1);
        lemma_alive_count_concat(s1, self.cell_if_any(x + 1, y));
        lemma_alive_count_concat(s2, self.cell_if_any(x, y - 1));
        lemma_alive_count_concat(s3, self.cell_if_any(x, y + 1));
        lemma_alive_count_concat(s4, self.cell_if_any(x - 1, y - 1));
        lemma_alive_count_concat(s5, self.cell_if_any(x + 1, y - 1));
        lemma_alive_count_concat(s6, self.cell_if_any(x - 1, y + 1));
        lemma_alive_count_concat(s7, self.cell_if_any(x + 1, y + 1));
    }

    proof fn lemma_alive_count_one(&self, x: int, y: int)
        ensures
            alive_count(self.cell_if_any(x, y)) == one_if(self.alive_at(x, y)),
    {
        let s = self.cell_if_any(x, y);
        if self.in_bounds(x, y) {
            assert(s.drop_last() =~= Seq::<Cell>::empty());
            assert(alive_count(s.drop_last()) == 0);
        }
    }

    pub fn kill_cell(&mut self, x: usize, y: usize)
        requires
            old(self).wf(),
        ensures
            final(self).wf(),
            final(self).width() == old(self).width(),
            final(self).height() == old(self).height(),
            final(self)@ == old(self).with_state(x as int, y as int, CellState::Dead),
    {
        self.update_cell(x, y, CellState::Dead);
    }

    pub fn revive_cell(&mut self, x: usize, y: usize)
        requires
            old(self).wf(),
        ensures
            final(self).wf(),
            final(self).width() == old(self).width(),
            final(self).height() == old(self).height(),
            final(self)@ == old(self).with_state(x as int, y as int, CellState::Alive),
    {
        self.update_cell(x, y, CellState::Alive);
    }

    /// Makes the cells at the given positions alive and leaves every other
    /// cell as it is. Positions outside the grid are ignored.
    pub fn set_cells_alive(&mut self, coords: Vec<(usize, usize)>)
        requires
            old(self).wf(),
        ensures
            final(self).wf(),
            final(self).width() == old(self).width(),
            final(self).height() == old(self).height(),
            forall|x: int, y: int|
                #[trigger] final(self).alive_at(x, y) <==> old(self).alive_at(x, y) || (old(self).in_bounds(x, y) && marks(coords@, x, y)),
    {
        for i in 0..coords.len()
            invariant
                self.wf(),
                self.width() == old(self).width(),
                self.height() == old(self).height(),
                forall|x: int, y: int|
                    self.alive_at(x, y) <==> old(self).alive_at(x, y) || (old(self).in_bounds(
                        x,
                        y,
                    ) && marks(coords@.take(i as int), x, y)),
        {
            let coord = coords[i];
            self.update_cell(coord.0, coord.1, CellState::Alive);
            proof {
                let done = coords@.take(i as int);
                let next = coords@.take(i + 1);
                assert(next =~= done.push(coord));
                assert forall|x: int, y: int|
                    self.alive_at(x, y) <==> old(self).alive_at(x, y) || (old(self).in_bounds(
                        x,
                        y,
                    ) && marks(next, x, y)) by {
                    if marks(next, x, y) {
                        let k = choose|k: int|
                            0 <= k < next.len() && next[k].0 == x && next[k].1 == y;
                        if k < i {
                            assert(done[k] == next[k]);
                        }
                    }
                    if marks(done, x, y) {
                        let k = choose|k: int|
                            0 <= k < done.len() && done[k].0 == x && done[k].1 == y;
                        assert(next[k] == done[k]);
                    }
                    if coord.0 == x && coord.1 == y {
                        assert(next[i as int] == coord);
                    }
                }
            }
        }
        proof {
            assert(coords@.take(coords@.len() as int) =~= coords@);
        }
    }

    /// Makes every cell dead. The size stays.
    pub fn reset(&mut self)
        requires
            old(self).wf(),
        ensures
            final(self).wf(),
            final(self).width() == old(self).width(),
            final(self).height() == old(self).height(),
            forall|x: int, y: int| !#[trigger] final(self).alive_at(x, y),
            forall|x: int, y: int|
                final(self).in_bounds(x, y) ==> (#[trigger] final(self)@[x][y]).state
                    == CellState::Dead,
    {
        let width = self.size_x;
        let height = self.size_y;
        for x in 0..width
            invariant
                self.wf(),
                self.width() == old(self).width() == width,
                self.height() == old(self).height() == height,
                forall|i: int, j: int| 0 <= i < x ==> !self.alive_at(i, j),
        {
            for y in 0..height
                invariant
                    self.wf(),
                    self.width() == old(self).width() == width,
                    self.height() == old(self).height() == height,
                    x < width,
                    forall|i: int, j: int| 0 <= i < x ==> !self.alive_at(i, j),
                    forall|j: int| 0 <= j < y ==> !self.alive_at(x as int, j),
            {
                let ghost before = *self;
                self.update_cell(x, y, CellState::Dead);
                proof {
                    assert forall|i: int, j: int| #[trigger]
                        self.alive_at(i, j) implies before.alive_at(i, j) by {}
                }
            }
        }
        proof {
            assert forall|x: int, y: int| self.in_bounds(x, y) implies (#[trigger] self@[x][y]).state
                == CellState::Dead by {
                assert(!self.alive_at(x, y));
            }
        }
    }

    /// Whether this grid is the generation that follows `before`: the same
    /// size, and each cell in the state that the rule gives it from its own
    /// state and its live neighbours in `before`.
    pub open spec fn is_successor_of(&self, before: &Grid) -> bool {
        &&& self.width() == before.width()
        &&& self.height() == before.height()
        &&& forall|x: int, y: int|
            before.in_bounds(x, y) ==> #[trigger] self.state_at(x, y) == before.state_at(
                x,
                y,
            ).successor(before.alive_neighbor_count(x, y))
    }

    /// Advances the grid by one generation. Every cell is judged by the
    /// generation before the call; none sees a state that this call has set.
    pub fn step_forward(&mut self)
        requires
            old(self).wf(),
        ensures
            final(self).wf(),
            final(self).is_successor_of(old(self)),
    {
        let mut next: Vec<Vec<Cell>> = Vec::new();
        for x in 0..self.size_x
            invariant
                *self == *old(self),
                self.wf(),
                next@.len() == x,
                forall|i: int| 0 <= i < x ==> (#[trigger] next@[i])@.len() == self.height(),
                forall|i: int, j: int|
                    0 <= i < x && 0 <= j < self.height() ==> {
                        &&& (#[trigger] next@[i]@[j]).id == self@[i][j].id
                        &&& next@[i]@[j].state == self@[i][j].state.successor(
                            self.alive_neighbor_count(i, j),
                        )
                    },
        {
            let mut column: Vec<Cell> = Vec::new();
            for y in 0..self.size_y
                invariant
                    *self == *old(self),
                    self.wf(),
                    x < self.width(),
                    column@.len() == y,
                    forall|j: int|
                        0 <= j < y ==> {
                            &&& (#[trigger] column@[j]).id == self@[x as int][j].id
                            &&& column@[j].state == self@[x as int][j].state.successor(
                                self.alive_neighbor_count(x as int, j),
                            )
                        },
            {
                let alive_neighbors = self.alive_neighbors(x, y);
                let cell = self.get_cell(x, y);
                column.push(Cell { id: cell.id, state: cell.state.next(alive_neighbors) });
            }
            next.push(column);
        }
        self.cells = next;
        proof {
            assert forall|x: int, y: int| final(self).in_bounds(x, y) implies (
            #[trigger] final(self)@[x][y]).id == final(self).label(x, y) by {
                assert(final(self)@[x][y] == next@[x]@[y]);
            }
            assert forall|x: int, y: int| old(self).in_bounds(x, y) implies #[trigger] final(self).state_at(x, y) == old(self).state_at(x, y).successor(
                old(self).alive_neighbor_count(x, y),
            ) by {
                assert(final(self)@[x][y] == next@[x]@[y]);
            }
        }
    }

    /// The cell at `(x, y)`, which must lie within the grid.
    pub fn get_cell(&self, x: usize, y: usize) -> (cell: Cell)
        requires
            self.wf(),
            self.in_bounds(x as int, y as int),
        ensures
            cell == self@[x as int][y as int],
            cell.id == self.label(x as int, y as int),
            cell.state == self.state_at(x as int, y as int),
            cell.state == CellState::Alive <==> self.alive_at(x as int, y as int),
    {
        self.cells[x][y]
    }
}

/// Whether `(x, y)` is among the given positions.
pub open spec fn marks(coords: Seq<(usize, usize)>, x: int, y: int) -> bool {
    exists|k: int| 0 <= k < coords.len() && (#[trigger] coords[k]).0 == x && coords[k].1 == y
}

/// One for `true`, nothing for `false`.
pub open spec fn one_if(b: bool) -> nat {
    if b {
        1
    } else {
        0
    }
}

/// The number of live cells in a sequence of cells.
pub open spec fn alive_count(cells: Seq<Cell>) -> nat
    decreases cells.len(),
{
    if cells.len() == 0 {
        0
    } else {
        alive_count(cells.drop_last()) + one_if(cells.last().state == CellState::Alive)
    }
}

proof fn lemma_alive_count_concat(a: Seq<Cell>, b: Seq<Cell>)
    ensures
        alive_count(a + b) == alive_count(a) + alive_count(b),
    decreases b.len(),
{
    if b.len() == 0 {
        assert(a + b =~= a);
    } else {
        assert((a + b).drop_last() =~= a + b.drop_last());
        lemma_alive_count_concat(a, b.drop_last());
    }
}

/// The label of a position within a grid is below the number of its cells.
pub proof fn lemma_label_fits(x: int, y: int, width: int, height: int)
    requires
        0 <= x < width,
        0 <= y < height,
    ensures
        0 <= x * height + y < width * height,
{
    assert(x * height + height <= width * height) by (nonlinear_arith)
        requires
            0 <= x < width,
            0 <= height,
    ;
    assert(0 <= x * height) by (nonlinear_arith)
        requires
            0 <= x,
            0 <= height,
    ;
}

} // verus!
