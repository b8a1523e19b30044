use game_of_life::{CellState, Grid};

#[test]
fn step_forward_blinker_test() {
    let mut grid = Grid::new(11, 10);
    grid.set_cells_alive(vec![(1, 1), (2, 1), (3, 1)]);
    grid.step_forward();
    assert_eq!(grid.alive_neighbors(1, 1), 3);
    assert_eq!(grid.alive_neighbors(3, 1), 3);
    assert_eq!(grid.alive_neighbors(2, 3), 1);
}

#[test]
fn alive_neighbors_test() {
    let mut grid = Grid::new(11, 10);
    let coords: Vec<(usize, usize)> = vec![
        (0, 0),
        (0, 1),
        (0, 2),
        (1, 0),
        (1, 1),
        (1, 2),
        (2, 0),
        (2, 1),
        (2, 2),
    ];
    grid.set_cells_alive(coords);
    assert_eq!(grid.alive_neighbors(1, 1), 8);
    grid.update_cell(0, 0, CellState::Dead);
    assert_eq!(grid.alive_neighbors(1, 1), 7);
}

#[test]
fn alive_neighbors_lower_corner_test() {
    let mut grid = Grid::new(10, 10);
    let coords: Vec<(usize, usize)> = vec![(8, 8), (9, 8), (8, 9)];
    grid.set_cells_alive(coords);
    assert_eq!(grid.alive_neighbors(9, 9), 3);
    grid.update_cell(9, 8, CellState::Dead);
    assert_eq!(grid.alive_neighbors(9, 9), 2);
}

#[test]
fn get_neighbors_left_test() {
    let mut grid = Grid::new(10, 10);
    grid.update_cell(1, 0, CellState::Alive);
    let neighbors = grid.get_neighbors(0, 0);
    let cell = neighbors[0];
    assert_eq!(cell.state, CellState::Alive);
}

#[test]
fn get_neighbors_right_test() {
    let mut grid = Grid::new(10, 10);
    grid.update_cell(9, 0, CellState::Alive);
    let neighbors = grid.get_neighbors(8, 0);
    let cell = neighbors[1];
    assert_eq!(cell.state, CellState::Alive);
}

#[test]
fn get_neighbors_up_test() {
    let mut grid = Grid::new(10, 10);
    grid.update_cell(9, 0, CellState::Alive);
    let neighbors = grid.get_neighbors(9, 1);
    let cell = neighbors[1];
    assert_eq!(cell.state, CellState::Alive);
}

#[test]
fn get_neighbors_down_test() {
    let mut grid = Grid::new(10, 10);
    grid.update_cell(1, 1, CellState::Alive);
    let neighbors = grid.get_neighbors(1, 0);
    let cell = neighbors[2];
    assert_eq!(cell.state, CellState::Alive);
}

#[test]
fn get_neighbors_upper_left_test() {
    let mut grid = Grid::new(10, 10);
    grid.update_cell(0, 0, CellState::Alive);
    let neighbors = grid.get_neighbors(1, 1);
    let cell = neighbors[4];
    assert_eq!(cell.state, CellState::Alive);
}

#[test]
fn get_neighbors_upper_right_test() {
    let mut grid = Grid::new(10, 10);
    grid.update_cell(0, 1, CellState::Alive);
    let neighbors = grid.get_neighbors(1, 0);
    let cell = neighbors[3];
    assert_eq!(cell.state, CellState::Alive);
}

#[test]
fn get_neighbors_lower_left_test() {
    let mut grid = Grid::new(10, 10);
    grid.update_cell(0, 1, CellState::Alive);
    let neighbors = grid.get_neighbors(1, 0);
    let cell = neighbors[3];
    assert_eq!(cell.state, CellState::Alive);
}

#[test]
fn get_neighbors_lower_right_test() {
    let mut grid = Grid::new(10, 10);
    grid.update_cell(2, 1, CellState::Alive);
    let neighbors = grid.get_neighbors(1, 0);
    let cell = neighbors[4];
    assert_eq!(cell.state, CellState::Alive);
}

#[test]
fn neighbors_come_in_a_fixed_order() {
    let grid = Grid::new(3, 3);
    let ids: Vec<u32> = grid.get_neighbors(1, 1).iter().map(|cell| cell.id).collect();
    // left, right, up, down, upper left, upper right, lower left, lower right
    assert_eq!(ids, vec![2, 8, 4, 6, 1, 7, 3, 9]);
}

#[test]
fn neighbors_of_a_corner_are_three() {
    let grid = Grid::new(3, 3);
    let ids: Vec<u32> = grid.get_neighbors(0, 0).iter().map(|cell| cell.id).collect();
    assert_eq!(ids, vec![4, 2, 5]);
    let ids: Vec<u32> = grid.get_neighbors(2, 2).iter().map(|cell| cell.id).collect();
    assert_eq!(ids, vec![6, 8, 5]);
}

#[test]
fn neighbors_of_an_edge_are_five() {
    let grid = Grid::new(3, 3);
    assert_eq!(grid.get_neighbors(1, 0).len(), 5);
    assert_eq!(grid.get_neighbors(0, 1).len(), 5);
}

#[test]
fn neighbors_outside_the_grid_are_none() {
    let grid = Grid::new(3, 3);
    assert!(grid.get_neighbors(3, 0).is_empty());
    assert!(grid.get_neighbors(0, 3).is_empty());
}

#[test]
fn surrounded_cell_counts_eight() {
    let mut grid = Grid::new(5, 5);
    for x in 1..4 {
        for y in 1..4 {
            grid.revive_cell(x, y);
        }
    }
    assert_eq!(grid.alive_neighbors(2, 2), 8);
}

#[test]
fn corner_counts_at_most_three() {
    let mut grid = Grid::new(4, 4);
    for x in 0..4 {
        for y in 0..4 {
            grid.revive_cell(x, y);
        }
    }
    assert_eq!(grid.alive_neighbors(0, 0), 3);
    assert_eq!(grid.alive_neighbors(3, 0), 3);
    assert_eq!(grid.alive_neighbors(0, 3), 3);
    assert_eq!(grid.alive_neighbors(3, 3), 3);
    assert_eq!(grid.alive_neighbors(1, 0), 5);
    assert_eq!(grid.alive_neighbors(0, 2), 5);
    assert_eq!(grid.alive_neighbors(1, 2), 8);
}

#[test]
fn corner_with_two_live_neighbors_counts_two() {
    let mut grid = Grid::new(4, 4);
    grid.set_cells_alive(vec![(1, 0), (0, 1)]);
    assert_eq!(grid.alive_neighbors(0, 0), 2);
}

#[test]
fn single_cell_grid_has_no_neighbors() {
    let mut grid = Grid::new(1, 1);
    grid.revive_cell(0, 0);
    assert!(grid.get_neighbors(0, 0).is_empty());
    assert_eq!(grid.alive_neighbors(0, 0), 0);
}
