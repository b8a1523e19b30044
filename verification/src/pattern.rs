use vstd::prelude::*;

use crate::tables::{
    ACORN, ALMOSYMMETRIC, BEACON, BEEHIVE, BLINKER, BLOCK, BOAT, COPPERHEAD, DIE_HARD,
    FAST_FORWARD_FORCE_FIELD, GLIDER, GLIDER_GUN, GLIDER_LOOP, HEAVY_SPACESHIP, INFINITE_GROWTH_1,
    INFINITE_GROWTH_2, LIGHT_SPACESHIP, LOAF, MIDDLE_SPACESHIP, PENTADECATHLON, PULSAR,
    R_PENTOMINO, TOAD,
};

verus! {

/// The named patterns that can be placed on a grid.
#[derive(Copy, Clone, Debug, PartialEq, Eq, Structural)]
pub enum Pattern {

    Blinker,
    Block,
    BeeHive,
    Loaf,
    Boat,
    Toad,
    Beacon,
    Pulsar,
    Pentadecathlon,
    Glider,
    LightSpaceship,
    MiddleSpaceship,
    HeavySpaceship,
    Copperhead,
    FastForwardForceField,
    GliderGun,
    RPentomino,
    DieHard,
    Acorn,
    Almosymmetric,
    GliderLoop,
    InfiniteGrowth1,
    InfiniteGrowth2,
}

/// The smallest box that holds every cell of a pattern, by the offsets of its
/// sides from the anchor.
#[derive(Copy, Clone, Debug, PartialEq, Eq, Structural)]
pub struct Footprint {
    pub min_dx: i32,
    pub max_dx: i32,
    pub min_dy: i32,
    pub max_dy: i32,
}

/// A table of offsets as pairs of mathematical integers.
pub open spec fn as_offsets(table: Seq<(i32, i32)>) -> Seq<(int, int)> {
    Seq::new(table.len(), |k: int| (table[k].0 as int, table[k].1 as int))
}

/// The names of all patterns, in the order of their declaration.
pub fn list_pattern_names() -> (names: Vec<String>)
    ensures
        names@.len() == Pattern::all().len(),
        forall|i: int| 0 <= i < names@.len() ==> (#[trigger] names@[i])@ == Pattern::all()[i].spec_name(),
{
    let patterns = Pattern::get_patterns();
    let mut names: Vec<String> = Vec::new();
    for i in 0..patterns.len()
        invariant
            patterns@ == Pattern::all(),
            names@.len() == i,
            forall|k: int| 0 <= k < i ==> (#[trigger] names@[k])@ == Pattern::all()[k].spec_name(),
    {
        names.push(patterns[i].name());
    }
    names
}

/// The names of the given patterns, with a comma between each two.
pub open spec fn joined_names(patterns: Seq<Pattern>) -> Seq<char>
    decreases patterns.len(),
{
    if patterns.len() == 0 {
        Seq::empty()
    } else if patterns.len() == 1 {
        patterns[0].spec_name()
    } else {
        joined_names(patterns.drop_last()).push(',') + patterns.last().spec_name()
    }
}

/// The names of all patterns in the order of their declaration, with a comma
/// between each two.
pub fn get_patterns_as_string() -> (names: String)
    ensures
        names@ == joined_names(Pattern::all()),
{
    let patterns = Pattern::get_patterns();
    let mut names = String::new();
    for i in 0..patterns.len()
        invariant
            patterns@ == Pattern::all(),
            names@ == joined_names(patterns@.take(i as int)),
    {
        proof {
            assert(patterns@.take(i + 1).drop_last() =~= patterns@.take(i as int));
        }
        if i > 0 {
            names.push(',');
        }
        let name = patterns[i].name();
        names.push_str(name.as_str());
        proof {
            if i == 0 {
                assert(names@ =~= name@);
            }
        }
    }
    proof {
        assert(patterns@.take(patterns@.len() as int) =~= patterns@);
    }
    names
}

impl Pattern {
    /// All patterns, in the order in which they are declared.
    pub open spec fn all() -> Seq<Pattern> {
        seq![
            Pattern::Blinker,
            Pattern::Block,
            Pattern::BeeHive,
            Pattern::Loaf,
            Pattern::Boat,
            Pattern::Toad,
            Pattern::Beacon,
            Pattern::Pulsar,
            Pattern::Pentadecathlon,
            Pattern::Glider,
            Pattern::LightSpaceship,
            Pattern::MiddleSpaceship,
            Pattern::HeavySpaceship,
            Pattern::Copperhead,
            Pattern::FastForwardForceField,
            Pattern::GliderGun,
            Pattern::RPentomino,
            Pattern::DieHard,
            Pattern::Acorn,
            Pattern::Almosymmetric,
            Pattern::GliderLoop,
            Pattern::InfiniteGrowth1,
            Pattern::InfiniteGrowth2,
        ]
    }

    /// The offsets of the pattern's live cells from the anchor, each as
    /// `(dx, dy)`.
    pub open spec fn offsets(self) -> Seq<(int, int)> {
        match self {
            Pattern::Blinker => as_offsets(BLINKER@),
            Pattern::Block => as_offsets(BLOCK@),
            Pattern::BeeHive => as_offsets(BEEHIVE@),
            Pattern::Loaf => as_offsets(LOAF@),
            Pattern::Boat => as_offsets(BOAT@),
            Pattern::Toad => as_offsets(TOAD@),
            Pattern::Beacon => as_offsets(BEACON@),
            Pattern::Pulsar => as_offsets(PULSAR@),
            Pattern::Pentadecathlon => as_offsets(PENTADECATHLON@),
            Pattern::Glider => as_offsets(GLIDER@),
            Pattern::LightSpaceship => as_offsets(LIGHT_SPACESHIP@),
            Pattern::MiddleSpaceship => as_offsets(MIDDLE_SPACESHIP@),
            Pattern::HeavySpaceship => as_offsets(HEAVY_SPACESHIP@),
            Pattern::Copperhead => as_offsets(COPPERHEAD@),
            Pattern::FastForwardForceField => as_offsets(FAST_FORWARD_FORCE_FIELD@),
            Pattern::GliderGun => as_offsets(GLIDER_GUN@),
            Pattern::RPentomino => as_offsets(R_PENTOMINO@),
            Pattern::DieHard => as_offsets(DIE_HARD@),
            Pattern::Acorn => as_offsets(ACORN@),
            Pattern::Almosymmetric => as_offsets(ALMOSYMMETRIC@),
            Pattern::GliderLoop => as_offsets(GLIDER_LOOP@),
            Pattern::InfiniteGrowth1 => as_offsets(INFINITE_GROWTH_1@),
            Pattern::InfiniteGrowth2 => as_offsets(INFINITE_GROWTH_2@),
        }
    }

    /// The pattern's name.
    pub open spec fn spec_name(self) -> Seq<char> {
        match self {
            Pattern::Blinker => "Blinker"@,
            Pattern::Block => "Block"@,
            Pattern::BeeHive => "BeeHive"@,
            Pattern::Loaf => "Loaf"@,
            Pattern::Boat => "Boat"@,
            Pattern::Toad => "Toad"@,
            Pattern::Beacon => "Beacon"@,
            Pattern::Pulsar => "Pulsar"@,
            Pattern::Pentadecathlon => "Pentadecathlon"@,
            Pattern::Glider => "Glider"@,
            Pattern::LightSpaceship => "LightSpaceship"@,
            Pattern::MiddleSpaceship => "MiddleSpaceship"@,
            Pattern::HeavySpaceship => "HeavySpaceship"@,
            Pattern::Copperhead => "Copperhead"@,
            Pattern::FastForwardForceField => "FastForwardForceField"@,
            Pattern::GliderGun => "GliderGun"@,
            Pattern::RPentomino => "RPentomino"@,
            Pattern::DieHard => "DieHard"@,
            Pattern::Acorn => "Acorn"@,
            Pattern::Almosymmetric => "Almosymmetric"@,
            Pattern::GliderLoop => "GliderLoop"@,
            Pattern::InfiniteGrowth1 => "InfiniteGrowth1"@,
            Pattern::InfiniteGrowth2 => "InfiniteGrowth2"@,
        }
    }

    /// Whether the pattern has a live cell at `(dx, dy)` from the anchor.
    pub open spec fn covers(self, dx: int, dy: int) -> bool {
        exists|k: int|
            0 <= k < self.offsets().len() && (#[trigger] self.offsets()[k]).0 == dx
                && self.offsets()[k].1 == dy
    }

    /// Whether the box holds every cell of the pattern and each of its four
    /// sides touches one.
    pub open spec fn has_footprint(self, sides: Footprint) -> bool {
        &&& forall|k: int|
            0 <= k < self.offsets().len() ==> sides.min_dx <= (#[trigger] self.offsets()[k]).0
                <= sides.max_dx && sides.min_dy <= self.offsets()[k].1 <= sides.max_dy
        &&& exists|k: int|
            0 <= k < self.offsets().len() && (#[trigger] self.offsets()[k]).0 == sides.min_dx
        &&& exists|k: int|
            0 <= k < self.offsets().len() && (#[trigger] self.offsets()[k]).0 == sides.max_dx
        &&& exists|k: int|
            0 <= k < self.offsets().len() && (#[trigger] self.offsets()[k]).1 == sides.min_dy
        &&& exists|k: int|
            0 <= k < self.offsets().len() && (#[trigger] self.offsets()[k]).1 == sides.max_dy
    }

    /// The number of patterns.
    pub fn count() -> (count: usize)
        ensures
            count == Pattern::all().len(),
            count == 23,
    {
        23
    }

    /// All patterns, in the order in which they are declared.
    pub fn get_patterns() -> (patterns: Vec<Pattern>)
        ensures
            patterns@ == Pattern::all(),
    {
        let patterns = vec![
            Pattern::Blinker,
            Pattern::Block,
            Pattern::BeeHive,
            Pattern::Loaf,
            Pattern::Boat,
            Pattern::Toad,
            Pattern::Beacon,
            Pattern::Pulsar,
            Pattern::Pentadecathlon,
            Pattern::Glider,
            Pattern::LightSpaceship,
            Pattern::MiddleSpaceship,
            Pattern::HeavySpaceship,
            Pattern::Copperhead,
            Pattern::FastForwardForceField,
            Pattern::GliderGun,
            Pattern::RPentomino,
            Pattern::DieHard,
            Pattern::Acorn,
            Pattern::Almosymmetric,
            Pattern::GliderLoop,
            Pattern::InfiniteGrowth1,
            Pattern::InfiniteGrowth2,
        ];
        assert(patterns@ =~= Pattern::all());
        patterns
    }

    /// The pattern's name: that of its variant.
    pub fn name(self) -> (name: String)
        ensures
            name@ == self.spec_name(),
    {
        match self {
            Pattern::Blinker => "Blinker".to_string(),
            Pattern::Block => "Block".to_string(),
            Pattern::BeeHive => "BeeHive".to_string(),
            Pattern::Loaf => "Loaf".to_string(),
            Pattern::Boat => "Boat".to_string(),
            Pattern::Toad => "Toad".to_string(),
            Pattern::Beacon => "Beacon".to_string(),
            Pattern::Pulsar => "Pulsar".to_string(),
            Pattern::Pentadecathlon => "Pentadecathlon".to_string(),
            Pattern::Glider => "Glider".to_string(),
            Pattern::LightSpaceship => "LightSpaceship".to_string(),
            Pattern::MiddleSpaceship => "MiddleSpaceship".to_string(),
            Pattern::HeavySpaceship => "HeavySpaceship".to_string(),
            Pattern::Copperhead => "Copperhead".to_string(),
            Pattern::FastForwardForceField => "FastForwardForceField".to_string(),
            Pattern::GliderGun => "GliderGun".to_string(),
            Pattern::RPentomino => "RPentomino".to_string(),
            Pattern::DieHard => "DieHard".to_string(),
            Pattern::Acorn => "Acorn".to_string(),
            Pattern::Almosymmetric => "Almosymmetric".to_string(),
            Pattern::GliderLoop => "GliderLoop".to_string(),
            Pattern::InfiniteGrowth1 => "InfiniteGrowth1".to_string(),
            Pattern::InfiniteGrowth2 => "InfiniteGrowth2".to_string(),
        }
    }

    /// The number of live cells of the pattern.
    pub fn cell_count(self) -> (count: usize)
        ensures
            count == self.offsets().len(),
            count > 0,
    {
        match self {
            Pattern::Blinker => 3,
            Pattern::Block => 4,
            Pattern::BeeHive => 6,
            Pattern::Loaf => 7,
            Pattern::Boat => 5,
            Pattern::Toad => 6,
            Pattern::Beacon => 8,
            Pattern::Pulsar => 48,
            Pattern::Pentadecathlon => 12,
            Pattern::Glider => 5,
            Pattern::LightSpaceship => 9,
            Pattern::MiddleSpaceship => 11,
            Pattern::HeavySpaceship => 13,
            Pattern::Copperhead => 28,
            Pattern::FastForwardForceField => 27,
            Pattern::GliderGun => 36,
            Pattern::RPentomino => 5,
            Pattern::DieHard => 6,
            Pattern::Acorn => 7,
            Pattern::Almosymmetric => 17,
            Pattern::GliderLoop => 228,
            Pattern::InfiniteGrowth1 => 10,
            Pattern::InfiniteGrowth2 => 13,
        }
    }

    /// The smallest box that holds every cell of the pattern.
    pub fn footprint(self) -> (sides: Footprint)
        ensures
            self.has_footprint(sides),
    {
        let count = self.cell_count();
        let first = self.offset(0);
        let mut sides = Footprint {
            min_dx: first.0,
            max_dx: first.0,
            min_dy: first.1,
            max_dy: first.1,
        };
        let ghost mut left: int = 0;
        let ghost mut right: int = 0;
        let ghost mut top: int = 0;
        let ghost mut bottom: int = 0;
        for k in 1..count
            invariant
                count == self.offsets().len(),
                forall|i: int|
                    0 <= i < k ==> sides.min_dx <= (#[trigger] self.offsets()[i]).0 <= sides.max_dx
                        && sides.min_dy <= self.offsets()[i].1 <= sides.max_dy,
                0 <= left < k && self.offsets()[left].0 == sides.min_dx,
                0 <= right < k && self.offsets()[right].0 == sides.max_dx,
                0 <= top < k && self.offsets()[top].1 == sides.min_dy,
                0 <= bottom < k && self.offsets()[bottom].1 == sides.max_dy,
        {
            let offset = self.offset(k);
            if offset.0 < sides.min_dx {
                sides.min_dx = offset.0;
                proof {
                    left = k as int;
                }
            }
            if offset.0 > sides.max_dx {
                sides.max_dx = offset.0;
                proof {
                    right = k as int;
                }
            }
            if offset.1 < sides.min_dy {
                sides.min_dy = offset.1;
                proof {
                    top = k as int;
                }
            }
            if offset.1 > sides.max_dy {
                sides.max_dy = offset.1;
                proof {
                    bottom = k as int;
                }
            }
        }
        sides
    }

    /// The offset of the pattern's live cell number `k` from the anchor.
    pub fn offset(self, k: usize) -> (offset: (i32, i32))
        requires
            k < self.offsets().len(),
        ensures
            offset.0 == self.offsets()[k as int].0,
            offset.1 == self.offsets()[k as int].1,
    {
        match self {
            Pattern::Blinker => BLINKER[k],
            Pattern::Block => BLOCK[k],
            Pattern::BeeHive => BEEHIVE[k],
            Pattern::Loaf => LOAF[k],
            Pattern::Boat => BOAT[k],
            Pattern::Toad => TOAD[k],
            Pattern::Beacon => BEACON[k],
            Pattern::Pulsar => PULSAR[k],
            Pattern::Pentadecathlon => PENTADECATHLON[k],
            Pattern::Glider => GLIDER[k],
            Pattern::LightSpaceship => LIGHT_SPACESHIP[k],
            Pattern::MiddleSpaceship => MIDDLE_SPACESHIP[k],
            Pattern::HeavySpaceship => HEAVY_SPACESHIP[k],
            Pattern::Copperhead => COPPERHEAD[k],
            Pattern::FastForwardForceField => FAST_FORWARD_FORCE_FIELD[k],
            Pattern::GliderGun => GLIDER_GUN[k],
            Pattern::RPentomino => R_PENTOMINO[k],
            Pattern::DieHard => DIE_HARD[k],
            Pattern::Acorn => ACORN[k],
            Pattern::Almosymmetric => ALMOSYMMETRIC[k],
            Pattern::GliderLoop => GLIDER_LOOP[k],
            Pattern::InfiniteGrowth1 => INFINITE_GROWTH_1[k],
            Pattern::InfiniteGrowth2 => INFINITE_GROWTH_2[k],
        }
    }
}

} // verus!
