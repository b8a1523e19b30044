use game_of_life::pattern::get_patterns_as_string;
use game_of_life::pattern::{list_pattern_names, Footprint};
use game_of_life::spawn::{moved, shifted};
use game_of_life::{CellState, Grid, Pattern};

fn alive_cells(grid: &Grid) -> Vec<(usize, usize)> {
    let mut alive = Vec::new();
    for x in 0..grid.width() {
        for y in 0..grid.height() {
            if grid.get_cell(x, y).state == CellState::Alive {
                alive.push((x, y));
            }
        }
    }
    alive
}

fn offsets(pattern: Pattern) -> Vec<(i32, i32)> {
    (0..pattern.cell_count()).map(|k| pattern.offset(k)).collect()
}

#[test]
fn patterns_are_listed_in_order() {
    assert_eq!(Pattern::count(), 23);
    let patterns = Pattern::get_patterns();
    assert_eq!(patterns.len(), 23);
    assert_eq!(patterns[0], Pattern::Blinker);
    assert_eq!(patterns[9], Pattern::Glider);
    assert_eq!(patterns[22], Pattern::InfiniteGrowth2);
}

#[test]
fn pattern_names_joined_by_commas() {
    assert_eq!(
        get_patterns_as_string(),
        "Blinker,Block,BeeHive,Loaf,Boat,Toad,Beacon,Pulsar,Pentadecathlon,Glider,\
         LightSpaceship,MiddleSpaceship,HeavySpaceship,Copperhead,FastForwardForceField,\
         GliderGun,RPentomino,DieHard,Acorn,Almosymmetric,GliderLoop,InfiniteGrowth1,\
         InfiniteGrowth2"
    );
}

#[test]
fn pattern_name_is_that_of_the_variant() {
    assert_eq!(Pattern::BeeHive.name(), "BeeHive");
    assert_eq!(Pattern::RPentomino.name(), "RPentomino");
    for pattern in Pattern::get_patterns() {
        assert_eq!(pattern.name(), format!("{:?}", pattern));
    }
}

#[test]
fn offsets_are_unique_within_a_pattern() {
    for pattern in Pattern::get_patterns() {
        let mut seen = offsets(pattern);
        seen.sort();
        seen.dedup();
        assert_eq!(seen.len(), pattern.cell_count());
    }
}

#[test]
fn cell_counts_of_the_patterns() {
    let counts: Vec<usize> = Pattern::get_patterns().iter().map(|p| p.cell_count()).collect();
    assert_eq!(
        counts,
        vec![3, 4, 6, 7, 5, 6, 8, 48, 12, 5, 9, 11, 13, 28, 27, 36, 5, 6, 7, 17, 228, 10, 13]
    );
}

#[test]
fn glider_offsets() {
    assert_eq!(offsets(Pattern::Glider), vec![(0, -1), (1, 0), (0, 1), (-1, 1), (1, 1)]);
}

#[test]
fn shifted_index() {
    assert_eq!(shifted(5, 3, 9), Some(8));
    assert_eq!(shifted(5, 4, 9), None);
    assert_eq!(shifted(5, -5, 9), Some(0));
    assert_eq!(shifted(5, -6, 9), None);
    assert_eq!(shifted(0, 0, 0), None);
    assert_eq!(shifted(9, -1, 9), Some(8));
    assert_eq!(shifted(usize::MAX, 1, usize::MAX), None);
    assert_eq!(shifted(usize::MAX, i32::MIN, usize::MAX), Some(usize::MAX - (1 << 31)));
    assert_eq!(shifted(0, i32::MAX, usize::MAX), Some(i32::MAX as usize));
}

#[test]
fn moved_index() {
    assert_eq!(moved(5, 3), 8);
    assert_eq!(moved(5, -5), 0);
    assert_eq!(moved(0, 0), 0);
    assert_eq!(moved(usize::MAX, -1), usize::MAX - 1);
    assert_eq!(moved(usize::MAX - 7, 7), usize::MAX);
    assert_eq!(moved(1 << 31, i32::MIN), 0);
}

#[test]
fn footprints_of_the_patterns() {
    let sides = |min_dx, max_dx, min_dy, max_dy| Footprint { min_dx, max_dx, min_dy, max_dy };
    assert_eq!(Pattern::Blinker.footprint(), sides(0, 0, -1, 1));
    assert_eq!(Pattern::Block.footprint(), sides(0, 1, 0, 1));
    assert_eq!(Pattern::Toad.footprint(), sides(-1, 2, -1, 0));
    assert_eq!(Pattern::Pulsar.footprint(), sides(-6, 6, -6, 6));
    assert_eq!(Pattern::Pentadecathlon.footprint(), sides(-1, 1, -4, 5));
    assert_eq!(Pattern::Glider.footprint(), sides(-1, 1, -1, 1));
    assert_eq!(Pattern::GliderGun.footprint(), sides(-18, 17, -4, 4));
    assert_eq!(Pattern::GliderLoop.footprint(), sides(-32, 32, -32, 32));
    assert_eq!(Pattern::Copperhead.footprint(), sides(0, 11, 0, 7));
    for pattern in Pattern::get_patterns() {
        let cells = offsets(pattern);
        let expected = sides(
            cells.iter().map(|o| o.0).min().unwrap(),
            cells.iter().map(|o| o.0).max().unwrap(),
            cells.iter().map(|o| o.1).min().unwrap(),
            cells.iter().map(|o| o.1).max().unwrap(),
        );
        assert_eq!(pattern.footprint(), expected);
    }
}

#[test]
fn fits_at_goes_by_every_side() {
    let grid = Grid::new(5, 4);
    assert!(grid.fits_at(Pattern::Glider, 1, 1));
    assert!(grid.fits_at(Pattern::Glider, 3, 2));
    assert!(!grid.fits_at(Pattern::Glider, 0, 1));
    assert!(!grid.fits_at(Pattern::Glider, 1, 0));
    assert!(!grid.fits_at(Pattern::Glider, 4, 1));
    assert!(!grid.fits_at(Pattern::Glider, 1, 3));
    assert!(!grid.fits_at(Pattern::Glider, usize::MAX, usize::MAX));
    assert!(grid.fits_at(Pattern::Toad, 1, 1));
    assert!(grid.fits_at(Pattern::Toad, 2, 3));
    assert!(!grid.fits_at(Pattern::Toad, 3, 1));
    assert!(!grid.fits_at(Pattern::Toad, 1, 0));
    assert!(!grid.fits_at(Pattern::Toad, 1, 4));
    assert!(!Grid::new(0, 0).fits_at(Pattern::Block, 0, 0));
    assert!(!Grid::new(2, 1).fits_at(Pattern::Block, 0, 0));
    assert!(Grid::new(2, 2).fits_at(Pattern::Block, 0, 0));
}

#[test]
fn placement_of_a_glider() {
    let grid = Grid::new(5, 5);
    assert!(grid.fits_at(Pattern::Glider, 2, 2));
    assert_eq!(
        grid.placement(Pattern::Glider, 2, 2),
        vec![(2, 1), (3, 2), (2, 3), (1, 3), (3, 3)]
    );
}

#[test]
fn pattern_names_in_a_list() {
    let names = list_pattern_names();
    assert_eq!(names.len(), 23);
    assert_eq!(names[0], "Blinker");
    assert_eq!(names[2], "BeeHive");
    assert_eq!(names[20], "GliderLoop");
    assert_eq!(names.join(","), get_patterns_as_string());
}

#[test]
fn spawn_blinker_is_a_column_of_three() {
    let mut grid = Grid::new(5, 5);
    grid.spawn_blinker(2, 2);
    assert_eq!(alive_cells(&grid), vec![(2, 1), (2, 2), (2, 3)]);
}

#[test]
fn spawn_keeps_what_was_alive() {
    let mut grid = Grid::new(6, 6);
    grid.revive_cell(5, 5);
    grid.spawn_block(0, 0);
    assert_eq!(alive_cells(&grid), vec![(0, 0), (0, 1), (1, 0), (1, 1), (5, 5)]);
}

#[test]
fn spawn_that_clips_changes_nothing() {
    for pattern in Pattern::get_patterns() {
        let mut grid = Grid::new(70, 70);
        grid.set_cells_alive(vec![(0, 0), (69, 69), (35, 35)]);
        let before = grid.clone();
        // one column too far to the right for every cell to fit
        let rightmost = offsets(pattern).iter().map(|o| o.0).max().unwrap();
        grid.spawn_pattern(pattern, (70 - rightmost) as usize, 35);
        assert_eq!(grid, before);
        // one row too far down
        let lowest = offsets(pattern).iter().map(|o| o.1).max().unwrap();
        grid.spawn_pattern(pattern, 35, (70 - lowest) as usize);
        assert_eq!(grid, before);
        // far outside
        grid.spawn_pattern(pattern, 700, 700);
        assert_eq!(grid, before);
    }
}

#[test]
fn spawn_near_the_origin_checks_the_negative_side() {
    let mut grid = Grid::new(40, 40);
    grid.spawn_pulsar(5, 20);
    grid.spawn_pulsar(20, 5);
    grid.spawn_glider(0, 5);
    grid.spawn_glider(5, 0);
    grid.spawn_blinker(0, 0);
    grid.spawn_toad(0, 1);
    grid.spawn_toad(1, 0);
    grid.spawn_beacon(0, 1);
    grid.spawn_pentadecanthlon(1, 3);
    grid.spawn_glider_gun(17, 4);
    grid.spawn_glider_gun(18, 3);
    grid.spawn_glider_loop(31, 32);
    assert_eq!(grid, Grid::new(40, 40));
}

#[test]
fn spawn_that_just_fits_places_every_cell() {
    for pattern in Pattern::get_patterns() {
        let cells = offsets(pattern);
        let left = -cells.iter().map(|o| o.0).min().unwrap();
        let top = -cells.iter().map(|o| o.1).min().unwrap();
        let width = left + cells.iter().map(|o| o.0).max().unwrap() + 1;
        let height = top + cells.iter().map(|o| o.1).max().unwrap() + 1;
        let mut grid = Grid::new(width as usize, height as usize);
        grid.spawn_pattern(pattern, left as usize, top as usize);
        let mut expected: Vec<(usize, usize)> =
            cells.iter().map(|o| ((left + o.0) as usize, (top + o.1) as usize)).collect();
        expected.sort();
        assert_eq!(alive_cells(&grid), expected);
        // a grid one column narrower or one row lower takes none of it
        let mut narrow = Grid::new(width as usize - 1, height as usize);
        narrow.spawn_pattern(pattern, left as usize, top as usize);
        assert!(alive_cells(&narrow).is_empty());
        let mut low = Grid::new(width as usize, height as usize - 1);
        low.spawn_pattern(pattern, left as usize, top as usize);
        assert!(alive_cells(&low).is_empty());
    }
}

#[test]
fn each_spawn_function_places_its_pattern() {
    let spawns: Vec<(fn(&mut Grid, usize, usize), Pattern)> = vec![
        (Grid::spawn_blinker, Pattern::Blinker),
        (Grid::spawn_block, Pattern::Block),
        (Grid::spawn_beehive, Pattern::BeeHive),
        (Grid::spawn_loaf, Pattern::Loaf),
        (Grid::spawn_boat, Pattern::Boat),
        (Grid::spawn_toad, Pattern::Toad),
        (Grid::spawn_beacon, Pattern::Beacon),
        (Grid::spawn_pulsar, Pattern::Pulsar),
        (Grid::spawn_pentadecanthlon, Pattern::Pentadecathlon),
        (Grid::spawn_glider, Pattern::Glider),
        (Grid::spawn_light_spaceship, Pattern::LightSpaceship),
        (Grid::spawn_middle_spaceship, Pattern::MiddleSpaceship),
        (Grid::spawn_heavy_spaceship, Pattern::HeavySpaceship),
        (Grid::spawn_copperhead, Pattern::Copperhead),
        (Grid::spawn_fast_forward_force_field, Pattern::FastForwardForceField),
        (Grid::spawn_glider_gun, Pattern::GliderGun),
        (Grid::spawn_r_pentomino, Pattern::RPentomino),
        (Grid::spawn_die_hard, Pattern::DieHard),
        (Grid::spawn_acorn, Pattern::Acorn),
        (Grid::spawn_almosymmetric, Pattern::Almosymmetric),
        (Grid::spawn_glider_loop, Pattern::GliderLoop),
        (Grid::spawn_infinite_growth_1, Pattern::InfiniteGrowth1),
        (Grid::spawn_infinite_growth_2, Pattern::InfiniteGrowth2),
    ];
    assert_eq!(spawns.len(), Pattern::count());
    for (spawn, pattern) in spawns {
        let mut by_name = Grid::new(80, 80);
        spawn(&mut by_name, 40, 40);
        let mut by_pattern = Grid::new(80, 80);
        by_pattern.spawn_pattern(pattern, 40, 40);
        assert_eq!(by_name, by_pattern);
        assert_eq!(alive_cells(&by_name).len(), pattern.cell_count());
    }
}

#[test]
fn pulsar_has_the_shape_of_its_table() {
    let mut grid = Grid::new(13, 13);
    grid.spawn_pulsar(6, 6);
    let rows: Vec<String> = grid.render_with('O', '.').lines().map(String::from).collect();
    assert_eq!(
        rows,
        vec![
            "..OOO...OOO..",
            ".............",
            "O....O.O....O",
            "O....O.O....O",
            "O....O.O....O",
            "..OOO...OOO..",
            ".............",
            "..OOO...OOO..",
            "O....O.O....O",
            "O....O.O....O",
            "O....O.O....O",
            ".............",
            "..OOO...OOO..",
        ]
    );
}

#[test]
fn spawned_block_is_a_still_life() {
    let mut grid = Grid::new(4, 4);
    grid.spawn_block(1, 1);
    let block = grid.clone();
    for _ in 0..5 {
        grid.step_forward();
        assert_eq!(grid, block);
    }
}

#[test]
fn spawned_blinker_has_period_two() {
    let mut grid = Grid::new(7, 7);
    grid.spawn_blinker(3, 3);
    let upright = grid.clone();
    grid.step_forward();
    assert_eq!(alive_cells(&grid), vec![(2, 3), (3, 3), (4, 3)]);
    grid.step_forward();
    assert_eq!(grid, upright);
}

#[test]
fn glider_moves_one_cell_down_and_right_in_four_steps() {
    let mut grid = Grid::new(12, 12);
    grid.spawn_glider(4, 4);
    let mut moved = Grid::new(12, 12);
    moved.spawn_glider(5, 5);
    for _ in 0..4 {
        assert_ne!(grid, moved);
        grid.step_forward();
    }
    assert_eq!(grid, moved);
    assert_eq!(alive_cells(&grid), vec![(4, 6), (5, 4), (5, 6), (6, 5), (6, 6)]);
}
