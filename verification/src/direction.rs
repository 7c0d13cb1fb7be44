//! Cardinal directions and quarter-turn rotations.
//!
//! `Direction` is the four-valued horizontal facing used everywhere in the
//! grid; `GridDirection` is the newtype that entities carry as their facing
//! component. Rotations form a cyclic group of order four: `left` and
//! `right` are inverses, and `reverse` is two right turns.

use vstd::prelude::*;

use crate::text::str_eq;

verus! {

/// One of the four horizontal facings of the grid.
#[derive(Clone, Copy, Debug, PartialEq, Eq, Structural)]
pub enum Direction {
    North,
    East,
    South,
    West,
}

impl Direction {
    /// The facing one quarter turn counter-clockwise from `self`.
    pub open spec fn spec_left(self) -> Direction {
        match self {
            Direction::North => Direction::West,
            Direction::East => Direction::North,
            Direction::South => Direction::East,
            Direction::West => Direction::South,
        }
    }

    /// The facing one quarter turn clockwise from `self`.
    pub open spec fn spec_right(self) -> Direction {
        match self {
            Direction::North => Direction::East,
            Direction::East => Direction::South,
            Direction::South => Direction::West,
            Direction::West => Direction::North,
        }
    }

    /// The opposite facing: two quarter turns in either sense.
    pub open spec fn spec_reverse(self) -> Direction {
        self.spec_right().spec_right()
    }

    /// Position of `self` in the fixed North, East, South, West cycle.
    pub open spec fn spec_index(self) -> int {
        match self {
            Direction::North => 0,
            Direction::East => 1,
            Direction::South => 2,
            Direction::West => 3,
        }
    }

    pub fn left(&self) -> (r: Direction)
        ensures
            r == self.spec_left(),
    {
        match self {
            Direction::North => Direction::West,
            Direction::East => Direction::North,
            Direction::South => Direction::East,
            Direction::West => Direction::South,
        }
    }

    pub fn right(&self) -> (r: Direction)
        ensures
            r == self.spec_right(),
    {
        match self {
            Direction::North => Direction::East,
            Direction::East => Direction::South,
            Direction::South => Direction::West,
            Direction::West => Direction::North,
        }
    }

    pub fn reverse(&self) -> (r: Direction)
        ensures
            r == self.spec_reverse(),
    {
        self.right().right()
    }
}

impl Default for Direction {
    /// Facings default to North, matching the level editor's default.
    fn default() -> (r: Direction)
        ensures
            r == Direction::North,
    {
        Direction::North
    }
}

/// Law: `left` and `right` are mutually inverse quarter turns.
pub proof fn lemma_left_right_inverse(d: Direction)
    ensures
        d.spec_left().spec_right() == d,
        d.spec_right().spec_left() == d,
{
}

/// Law: four applications of either rotation return to the start.
pub proof fn lemma_rotation_order_four(d: Direction)
    ensures
        d.spec_right().spec_right().spec_right().spec_right() == d,
        d.spec_left().spec_left().spec_left().spec_left() == d,
{
}

/// Law: `reverse` is its own inverse and agrees with two left turns.
pub proof fn lemma_reverse_involution(d: Direction)
    ensures
        d.spec_reverse().spec_reverse() == d,
        d.spec_reverse() == d.spec_left().spec_left(),
{
}

/// The facing a ramp or billboard was placed with, as named in level data.
///
/// Returns `None` for anything but the four lower-case cardinal names;
/// callers decide whether a missing name falls back to a default.
pub fn parse_direction(name: &str) -> (r: Option<Direction>)
    ensures
        r == spec_parse_direction(name@),
{
    if str_eq(name, "north") {
        Some(Direction::North)
    } else if str_eq(name, "east") {
        Some(Direction::East)
    } else if str_eq(name, "south") {
        Some(Direction::South)
    } else if str_eq(name, "west") {
        Some(Direction::West)
    } else {
        None
    }
}

/// Which direction, if any, a lower-case cardinal name denotes.
pub open spec fn spec_parse_direction(name: Seq<char>) -> Option<Direction> {
    if name == "north"@ {
        Some(Direction::North)
    } else if name == "east"@ {
        Some(Direction::East)
    } else if name == "south"@ {
        Some(Direction::South)
    } else if name == "west"@ {
        Some(Direction::West)
    } else {
        None
    }
}

/// The facing component of a grid entity.
#[derive(Clone, Copy, Debug, PartialEq, Eq, Structural)]
pub struct GridDirection(pub Direction);

impl GridDirection {
    pub fn left(&self) -> (r: GridDirection)
        ensures
            r.0 == self.0.spec_left(),
    {
        GridDirection(self.0.left())
    }

    pub fn right(&self) -> (r: GridDirection)
        ensures
            r.0 == self.0.spec_right(),
    {
        GridDirection(self.0.right())
    }

    pub fn reverse(&self) -> (r: GridDirection)
        ensures
            r.0 == self.0.spec_reverse(),
    {
        GridDirection(self.0.reverse())
    }
}

impl Default for GridDirection {
    fn default() -> (r: GridDirection)
        ensures
            r.0 == Direction::North,
    {
        GridDirection(Direction::North)
    }
}

} // verus!
