use game_of_life::random::{draw_is_alive, random_bool, random_bools};
use game_of_life::{CellState, Grid};

#[test]
fn randomize_from_sets_each_cell_by_its_draw() {
    let mut grid = Grid::new(3, 2);
    grid.revive_cell(0, 0);
    // column by column: (0,0) (0,1) (1,0) (1,1) (2,0) (2,1)
    grid.randomize_from(&vec![false, true, true, false, false, true]);
    assert_eq!(grid.get_cells(), vec![false, true, false, true, false, true]);
    assert_eq!(grid.get_cell(2, 1).id, 6);
}

#[test]
fn randomize_center_from_leaves_the_rim() {
    let mut grid = Grid::new(8, 8);
    grid.revive_cell(0, 0);
    grid.revive_cell(4, 4);
    grid.revive_cell(7, 3);
    grid.randomize_center_from(&vec![true; 64]);
    // the middle part: more than 2 and less than 6, both ways
    for x in 0..8 {
        for y in 0..8 {
            let middle = x > 2 && x < 6 && y > 2 && y < 6;
            let was_alive = (x, y) == (0, 0) || (x, y) == (7, 3);
            let expected = if middle || was_alive { CellState::Alive } else { CellState::Dead };
            assert_eq!(grid.get_cell(x, y).state, expected);
        }
    }
    grid.randomize_center_from(&vec![false; 64]);
    let alive: usize = grid.get_cells().iter().filter(|alive| **alive).count();
    assert_eq!(alive, 2);
}

#[test]
fn randomize_center_from_uses_the_draw_of_the_cell() {
    let mut grid = Grid::new(4, 4);
    // the middle part of a grid of four by four: (2, 2) alone
    let mut draws = vec![false; 16];
    draws[2 * 4 + 2] = true;
    grid.randomize_center_from(&draws);
    assert_eq!(grid.get_cell(2, 2).state, CellState::Alive);
    let mut others = vec![true; 16];
    others[2 * 4 + 2] = false;
    grid.randomize_center_from(&others);
    assert_eq!(grid, Grid::new(4, 4));
}

#[test]
fn randomize_keeps_size_and_labels() {
    let mut grid = Grid::new(9, 7);
    grid.randomize();
    assert_eq!(grid.width(), 9);
    assert_eq!(grid.height(), 7);
    assert_eq!(grid.get_cells().len(), 63);
    for x in 0..9 {
        for y in 0..7 {
            assert_eq!(grid.get_cell(x, y).id as usize, x * 7 + y + 1);
        }
    }
}

#[test]
fn randomize_center_keeps_the_rim() {
    let mut grid = Grid::new(12, 12);
    grid.revive_cell(0, 0);
    grid.revive_cell(11, 5);
    grid.randomize_center();
    for x in 0..12 {
        for y in 0..12 {
            let middle = x > 3 && x < 9 && y > 3 && y < 9;
            if !middle {
                let was_alive = (x, y) == (0, 0) || (x, y) == (11, 5);
                assert_eq!(grid.get_cell(x, y).state == CellState::Alive, was_alive);
            }
        }
    }
}

#[test]
fn random_bools_draws_both_values() {
    let mut rng = rand::thread_rng();
    let draws = random_bools(&mut rng, 4096);
    assert_eq!(draws.len(), 4096);
    assert!(draws.iter().any(|alive| *alive));
    assert!(draws.iter().any(|alive| !*alive));
    let _ = random_bool(&mut rng);
}

#[test]
fn zero_is_drawn_for_a_live_cell() {
    assert!(draw_is_alive(0));
    assert!(!draw_is_alive(1));
    assert!(!draw_is_alive(-1));
    assert!(!draw_is_alive(i32::MAX));
}
