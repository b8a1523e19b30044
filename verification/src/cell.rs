use vstd::prelude::*;

use crate::cell_state::CellState;

verus! {

/// One cell of a grid: a label and a state. The label is given when the grid
/// is made and plays no part in the rules.
#[derive(Copy, Clone, Debug, PartialEq, Eq, Structural)]
pub struct Cell {
    pub id: u32,
    pub state: CellState,
}

} // verus!
