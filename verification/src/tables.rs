//! The shapes of the patterns: for each one the offsets of its live cells from
//! the anchor, first to the right, then downwards. Negative offsets lie to the
//! left of the anchor or above it.

use vstd::prelude::*;

verus! {

/// The blinker: a column of three cells, the anchor in the middle.
pub const BLINKER: [(i32, i32); 3] = [(0, -1), (0, 0), (0, 1)];

/// The block: a square of four cells, the anchor at its upper left.
pub const BLOCK: [(i32, i32); 4] = [(0, 0), (0, 1), (1, 0), (1, 1)];

/// The beehive, in a box of four by three cells with the anchor at its upper
/// left corner.
pub const BEEHIVE: [(i32, i32); 6] = [(1, 0), (2, 0), (0, 1), (3, 1), (1, 2), (2, 2)];

/// The loaf, in a box of four by four cells with the anchor at its upper left
/// corner.
pub const LOAF: [(i32, i32); 7] = [(1, 0), (2, 0), (0, 1), (3, 1), (1, 2), (3, 2), (2, 3)];

/// The boat, in a box of three by three cells with the anchor at its upper left
/// corner.
pub const BOAT: [(i32, i32); 5] = [(0, 0), (1, 0), (0, 1), (2, 1), (1, 2)];

/// The toad: two rows of three cells, the upper one shifted one cell to the
/// right.
pub const TOAD: [(i32, i32); 6] = [(0, 0), (0, -1), (-1, 0), (1, 0), (1, -1), (2, -1)];

/// The beacon: two squares of four cells that touch at a corner.
pub const BEACON: [(i32, i32); 8] = [
    (0, 0), (0, -1), (-1, 0), (-1, -1), (1, 1), (2, 1), (1, 2), (2, 2),
];

/// The pulsar: four quarters of twelve cells each around the anchor, which
/// stays empty.
pub const PULSAR: [(i32, i32); 48] = [
    (-2, -1), (-3, -1), (-4, -1), (-1, -2), (-1, -3), (-1, -4), (-2, -6), (-3, -6), (-4, -6),
    (-6, -2), (-6, -3), (-6, -4), (-2, 1), (-3, 1), (-4, 1), (-1, 2), (-1, 3), (-1, 4), (-2, 6),
    (-3, 6), (-4, 6), (-6, 2), (-6, 3), (-6, 4), (2, -1), (3, -1), (4, -1), (1, -2), (1, -3),
    (1, -4), (2, -6), (3, -6), (4, -6), (6, -2), (6, -3), (6, -4), (2, 1), (3, 1), (4, 1), (1, 2),
    (1, 3), (1, 4), (2, 6), (3, 6), (4, 6), (6, 2), (6, 3), (6, 4),
];

/// The pentadecathlon, standing upright through the anchor.
pub const PENTADECATHLON: [(i32, i32); 12] = [
    (0, 0), (0, -1), (-1, -2), (1, -2), (0, -3), (0, -4), (0, 1), (0, 2), (-1, 3), (1, 3), (0, 4),
    (0, 5),
];

/// The glider, heading down and to the right, around the anchor.
pub const GLIDER: [(i32, i32); 5] = [(0, -1), (1, 0), (0, 1), (-1, 1), (1, 1)];

/// The lightweight spaceship.
pub const LIGHT_SPACESHIP: [(i32, i32); 9] = [
    (0, 0), (3, 0), (4, 1), (0, 2), (4, 2), (1, 3), (2, 3), (3, 3), (4, 3),
];

/// The middleweight spaceship.
pub const MIDDLE_SPACESHIP: [(i32, i32); 11] = [
    (2, 0), (0, 1), (4, 1), (5, 2), (0, 3), (5, 3), (1, 4), (2, 4), (3, 4), (4, 4), (5, 4),
];

/// The heavyweight spaceship.
pub const HEAVY_SPACESHIP: [(i32, i32); 13] = [
    (2, 0), (3, 0), (0, 1), (5, 1), (6, 2), (0, 3), (6, 3), (1, 4), (2, 4), (3, 4), (4, 4), (5, 4),
    (6, 4),
];

/// The copperhead, lying on its side.
pub const COPPERHEAD: [(i32, i32); 28] = [
    (5, 0), (7, 0), (8, 0), (4, 1), (11, 1), (3, 2), (4, 2), (8, 2), (11, 2), (0, 3), (1, 3),
    (3, 3), (9, 3), (10, 3), (0, 4), (1, 4), (3, 4), (9, 4), (10, 4), (3, 5), (4, 5), (8, 5),
    (11, 5), (4, 6), (11, 6), (5, 7), (7, 7), (8, 7),
];

/// The fast forward force field.
pub const FAST_FORWARD_FORCE_FIELD: [(i32, i32); 27] = [
    (7, 0), (14, 0), (8, 1), (15, 1), (16, 1), (2, 2), (3, 2), (6, 2), (7, 2), (8, 2), (14, 2),
    (15, 2), (0, 3), (1, 3), (3, 3), (4, 3), (0, 4), (1, 4), (2, 4), (3, 4), (13, 4), (1, 5),
    (2, 5), (12, 5), (13, 5), (12, 6), (14, 6),
];

/// The glider gun, its two halves to the left and to the right of the anchor.
pub const GLIDER_GUN: [(i32, i32); 36] = [
    (-1, 1), (-2, 0), (-2, 1), (-2, 2), (-3, -1), (-3, 3), (-4, 1), (-5, -2), (-5, 4), (-6, -2),
    (-6, 4), (-7, -1), (-7, 3), (-8, 0), (-8, 2), (-8, 1), (-17, 0), (-18, 0), (-17, 1), (-18, 1),
    (2, 0), (2, -1), (2, -2), (3, 0), (3, -1), (3, -2), (4, 1), (4, -3), (6, 1), (6, 2), (6, -3),
    (6, -4), (16, -1), (16, -2), (17, -1), (17, -2),
];

/// The R-pentomino.
pub const R_PENTOMINO: [(i32, i32); 5] = [(1, 0), (2, 0), (0, 1), (1, 1), (1, 2)];

/// The die hard seed.
pub const DIE_HARD: [(i32, i32); 6] = [(6, 0), (0, 1), (1, 1), (1, 2), (5, 2), (6, 2)];

/// The acorn.
pub const ACORN: [(i32, i32); 7] = [(1, 0), (3, 1), (0, 2), (1, 2), (4, 2), (5, 2), (6, 2)];

/// The almosymmetric oscillator.
pub const ALMOSYMMETRIC: [(i32, i32); 17] = [
    (3, 0), (3, 1), (5, 1), (1, 2), (6, 3), (7, 3), (0, 4), (1, 4), (6, 5), (2, 6), (1, 7), (4, 7),
    (6, 7), (1, 8), (2, 8), (5, 8), (6, 8),
];

/// The glider loop, centred on the anchor.
pub const GLIDER_LOOP: [(i32, i32); 228] = [
    (-5, -32), (-4, -32), (-5, -31), (-3, -31), (-3, -30), (2, -30), (3, -30), (-7, -29), (-6, -29),
    (-5, -29), (-4, -29), (-2, -29), (-1, -29), (2, -29), (5, -29), (-7, -28), (-4, -28), (0, -28),
    (2, -28), (4, -28), (5, -28), (-4, -27), (-2, -27), (0, -27), (2, -27), (-3, -26), (-2, -26),
    (0, -26), (2, -26), (1, -25), (-13, -23), (-12, -23), (-12, -22), (-3, -22), (-12, -21),
    (-10, -21), (-4, -21), (-3, -21), (-11, -20), (-10, -20), (3, -19), (4, -18), (2, -17),
    (3, -17), (4, -17), (-7, -15), (-7, -14), (-6, -14), (-8, -13), (-6, -13), (-1, -13), (0, -13),
    (23, -13), (-1, -12), (21, -12), (22, -12), (23, -12), (0, -11), (1, -11), (2, -11), (20, -11),
    (2, -10), (20, -10), (21, -10), (13, -8), (14, -7), (15, -7), (28, -7), (29, -7), (13, -6),
    (14, -6), (29, -6), (-29, -5), (-28, -5), (29, -5), (31, -5), (32, -5), (-28, -4), (-18, -4),
    (-17, -4), (21, -4), (27, -4), (28, -4), (29, -4), (32, -4), (-30, -3), (-19, -3), (-17, -3),
    (21, -3), (22, -3), (26, -3), (30, -3), (31, -3), (-30, -2), (-29, -2), (-28, -2), (-27, -2),
    (-26, -2), (-17, -2), (-11, -2), (-10, -2), (26, -2), (27, -2), (29, -2), (-25, -1), (-11, -1),
    (12, -1), (13, -1), (29, -1), (-28, 0), (-27, 0), (-26, 0), (-13, 0), (-11, 0), (11, 0),
    (13, 0), (26, 0), (27, 0), (28, 0), (-29, 1), (-13, 1), (-12, 1), (11, 1), (25, 1), (-29, 2),
    (-27, 2), (-26, 2), (10, 2), (11, 2), (17, 2), (26, 2), (27, 2), (28, 2), (29, 2), (30, 2),
    (-31, 3), (-30, 3), (-26, 3), (-22, 3), (-21, 3), (17, 3), (19, 3), (30, 3), (-32, 4), (-29, 4),
    (-28, 4), (-27, 4), (-21, 4), (17, 4), (18, 4), (28, 4), (-32, 5), (-31, 5), (-29, 5), (28, 5),
    (29, 5), (-29, 6), (-14, 6), (-13, 6), (-29, 7), (-28, 7), (-15, 7), (-14, 7), (-13, 8),
    (-21, 10), (-20, 10), (-2, 10), (-20, 11), (-2, 11), (-1, 11), (0, 11), (-23, 12), (-22, 12),
    (-21, 12), (1, 12), (-23, 13), (0, 13), (1, 13), (6, 13), (8, 13), (6, 14), (7, 14), (7, 15),
    (-4, 17), (-3, 17), (-2, 17), (-4, 18), (-3, 19), (10, 20), (11, 20), (3, 21), (4, 21),
    (10, 21), (12, 21), (3, 22), (12, 22), (12, 23), (13, 23), (-1, 25), (-2, 26), (0, 26), (2, 26),
    (3, 26), (-2, 27), (0, 27), (2, 27), (4, 27), (-5, 28), (-4, 28), (-2, 28), (0, 28), (4, 28),
    (7, 28), (-5, 29), (-2, 29), (1, 29), (2, 29), (4, 29), (5, 29), (6, 29), (7, 29), (-3, 30),
    (-2, 30), (3, 30), (3, 31), (5, 31), (4, 32), (5, 32),
];

/// A seed of ten cells that grows without end.
pub const INFINITE_GROWTH_1: [(i32, i32); 10] = [
    (6, 0), (4, 1), (6, 1), (7, 1), (4, 2), (6, 2), (4, 3), (2, 4), (0, 5), (2, 5),
];

/// A seed within a square of five by five cells that grows without end.
pub const INFINITE_GROWTH_2: [(i32, i32); 13] = [
    (0, 0), (1, 0), (2, 0), (4, 0), (0, 1), (3, 2), (4, 2), (1, 3), (2, 3), (4, 3), (0, 4), (2, 4),
    (4, 4),
];

} // verus!
