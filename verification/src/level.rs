//! Block placements and the occupancy queries the resolver reads.
//!
//! A `Level` is the full set of placement records supplied by the level
//! loader when a level (re)loads; reloads rebuild it wholesale. During play
//! it is read-only, through two predicates: whether a cell holds a collider,
//! and whether a cell holds a ramp and which way that ramp faces.
//!
//! Overlapping placements are not rejected at load time; the queries use a
//! deterministic first-match policy, so the earliest placement record of a
//! cell decides which ramp facing the cell reports.

use vstd::prelude::*;

use crate::direction::GridDirection;
use crate::position::GridPosition;

verus! {

/// What kind of block occupies a cell.
#[derive(Clone, Copy, Debug, PartialEq, Eq, Structural)]
pub enum BlockKind {
    /// A full solid cube; blocks movement and provides footing.
    Wall,
    /// A solid column; blocks movement like a wall.
    Column,
    /// A flat sprite block; solid for movement purposes.
    Billboard,
    /// A walkable slope between two adjacent altitude levels; its facing
    /// names its uphill side. Not solid: movers enter it.
    Ramp,
    /// A ramp mirrored against the ceiling; solid for movement, and not a
    /// walkable slope.
    FlippedRamp,
    /// A decorative light; neither solid nor walkable.
    Torch,
}

/// One block placed at one cell, fixed at level-load time.
#[derive(Clone, Copy, Debug, PartialEq, Eq, Structural)]
pub struct Placement {
    pub position: GridPosition,
    pub kind: BlockKind,
    /// The facing the block was placed with; meaningful for ramps (their
    /// uphill side) and billboards, `North` for kinds without one.
    pub facing: GridDirection,
}

/// Whether a block kind is solid: it cannot be entered, and it provides
/// footing for the cell above.
pub open spec fn kind_collides(kind: BlockKind) -> bool {
    match kind {
        BlockKind::Wall => true,
        BlockKind::Column => true,
        BlockKind::Billboard => true,
        BlockKind::Ramp => false,
        BlockKind::FlippedRamp => true,
        BlockKind::Torch => false,
    }
}

/// Whether a block kind is a walkable ramp for movement.
pub open spec fn kind_is_ramp(kind: BlockKind) -> bool {
    kind is Ramp
}

/// Whether some solid placement occupies `pos`.
pub open spec fn spec_has_collider(placements: Seq<Placement>, pos: GridPosition) -> bool {
    exists|i: int|
        0 <= i < placements.len() && placements[i].position == pos && kind_collides(
            placements[i].kind,
        )
}

/// The facing of the first ramp placement at `pos`, if any.
pub open spec fn spec_ramp_at(placements: Seq<Placement>, pos: GridPosition) -> Option<
    GridDirection,
>
    decreases placements.len(),
{
    if placements.len() == 0 {
        None
    } else if placements[0].position == pos && kind_is_ramp(placements[0].kind) {
        Some(placements[0].facing)
    } else {
        spec_ramp_at(placements.drop_first(), pos)
    }
}

/// The set of blocks of the loaded level, in placement order.
#[derive(Debug)]
pub struct Level {
    placements: Vec<Placement>,
}

impl View for Level {
    type V = Seq<Placement>;

    closed spec fn view(&self) -> Seq<Placement> {
        self.placements@
    }
}

impl Level {
    /// An empty level, holding no blocks.
    pub fn new() -> (level: Level)
        ensures
            level@ == Seq::<Placement>::empty(),
    {
        Level { placements: Vec::new() }
    }

    /// Records one more block placement, after all earlier ones.
    pub fn place(&mut self, placement: Placement)
        ensures
            final(self)@ == old(self)@.push(placement),
    {
        self.placements.push(placement);
    }

    /// Whether any solid block occupies `pos`.
    pub fn has_collider(&self, pos: &GridPosition) -> (r: bool)
        ensures
            r == spec_has_collider(self@, *pos),
    {
        let n = self.placements.len();
        let mut i: usize = 0;
        while i < n
            invariant
                i <= n,
                n == self.placements.len(),
                forall|j: int|
                    0 <= j < i ==> !(self.placements@[j].position == *pos && kind_collides(
                        self.placements@[j].kind,
                    )),
            decreases n - i,
        {
            let p = &self.placements[i];
            if p.position == *pos && kind_collides_exec(p.kind) {
                return true;
            }
            i = i + 1;
        }
        false
    }

    /// The facing of the ramp occupying `pos`, if one does. Where several
    /// placements claim the cell, the earliest ramp wins.
    pub fn ramp_at(&self, pos: &GridPosition) -> (r: Option<GridDirection>)
        ensures
            r == spec_ramp_at(self@, *pos),
    {
        let ghost s = self.placements@;
        proof {
            assert(s.skip(0) =~= s);
        }
        let n = self.placements.len();
        let mut i: usize = 0;
        while i < n
            invariant
                i <= n,
                n == s.len(),
                s == self.placements@,
                spec_ramp_at(s, *pos) == spec_ramp_at(s.skip(i as int), *pos),
            decreases n - i,
        {
            let p = &self.placements[i];
            if p.position == *pos && kind_is_ramp_exec(p.kind) {
                return Some(p.facing);
            }
            proof {
                assert(s.skip(i as int).drop_first() =~= s.skip(i as int + 1));
            }
            i = i + 1;
        }
        assert(s.skip(n as int) =~= Seq::<Placement>::empty());
        None
    }
}

/// Whether a block kind is solid.
pub fn kind_collides_exec(kind: BlockKind) -> (r: bool)
    ensures
        r == kind_collides(kind),
{
    match kind {
        BlockKind::Wall => true,
        BlockKind::Column => true,
        BlockKind::Billboard => true,
        BlockKind::Ramp => false,
        BlockKind::FlippedRamp => true,
        BlockKind::Torch => false,
    }
}

/// Whether a block kind is a walkable ramp.
pub fn kind_is_ramp_exec(kind: BlockKind) -> (r: bool)
    ensures
        r == kind_is_ramp(kind),
{
    match kind {
        BlockKind::Ramp => true,
        _ => false,
    }
}

/// The queried position, if a solid block occupies it.
pub fn find_collider_position(position: &GridPosition, level: &Level) -> (r: Option<GridPosition>)
    ensures
        r is Some <==> spec_has_collider(level@, *position),
        r matches Some(p) ==> p == *position,
{
    if level.has_collider(position) {
        Some(*position)
    } else {
        None
    }
}

/// The queried position and the ramp facing there, if a ramp occupies it.
pub fn find_ramp_position_direction(position: &GridPosition, level: &Level) -> (r: Option<
    (GridPosition, GridDirection),
>)
    ensures
        match r {
            Some((p, d)) => p == *position && spec_ramp_at(level@, *position) == Some(d),
            None => spec_ramp_at(level@, *position) is None,
        },
{
    match level.ramp_at(position) {
        Some(d) => Some((*position, d)),
        None => None,
    }
}

} // verus!
