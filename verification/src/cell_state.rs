use vstd::prelude::*;

verus! {

/// The state of one cell. A cell is always exactly one of the two.
#[derive(Copy, Clone, Debug, PartialEq, Eq, Structural)]
pub enum CellState {
    Alive,
    Dead,
}

impl CellState {
    /// The state of a cell in the next generation, given its state now and the
    /// number of its neighbours that are alive now: a dead cell is born with
    /// exactly three, a live one survives with two or three.
    pub open spec fn successor(self, alive_neighbors: nat) -> CellState {
        if alive_neighbors == 3 || (self == CellState::Alive && alive_neighbors == 2) {
            CellState::Alive
        } else {
            CellState::Dead
        }
    }

    /// The state that a drawn boolean stands for.
    pub open spec fn of_bool(alive: bool) -> CellState {
        if alive {
            CellState::Alive
        } else {
            CellState::Dead
        }
    }

    /// The state in the next generation, by the rule of [`CellState::successor`].
    pub fn next(self, alive_neighbors: usize) -> (state: CellState)
        ensures
            state == self.successor(alive_neighbors as nat),
    {
        let mut state = self;
        if state == CellState::Alive {
            if alive_neighbors < 2 {
                state = CellState::Dead;
            }
            if alive_neighbors > 3 {
                state = CellState::Dead;
            }
        }
        if alive_neighbors == 3 {
            state = CellState::Alive;
        }
        state
    }

    pub fn from_bool(alive: bool) -> (state: CellState)
        ensures
            state == CellState::of_bool(alive),
    {
        match alive {
            true => CellState::Alive,
            false => CellState::Dead,
        }
    }
}

} // verus!
