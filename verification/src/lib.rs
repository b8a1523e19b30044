//! Conway's Game of Life on a bounded grid, with a library of named patterns.
//!
//! The grid is a fixed-size rectangle of cells. Positions outside of it do not
//! exist: they never count as neighbours and writes to them are ignored.

pub mod cell;
pub mod cell_state;
pub mod external;
pub mod grid;
pub mod laws;
pub mod life;
pub mod pattern;
pub mod random;
pub mod render;
pub mod spawn;
pub mod tables;

pub use cell::Cell;
pub use cell_state::CellState;
pub use grid::Grid;
pub use pattern::Pattern;
