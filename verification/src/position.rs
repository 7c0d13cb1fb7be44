//! Integer lattice coordinates and direction-relative navigation.
//!
//! A `GridPosition` is a cell of the unbounded integer lattice: `y` is the
//! vertical level, `x` and `z` span the horizontal plane. Navigation adds
//! the unit vector of a facing (North is negative `z`, East positive `x`),
//! and `edge_heights` computes the pair of vertical offsets of a cell's
//! near and far walkable edges along a travel direction, the quantity the
//! movement resolver compares across a cell boundary to decide whether two
//! walkable surfaces line up.

use vstd::prelude::*;

use crate::direction::Direction;
use crate::direction::GridDirection;

verus! {

/// Horizontal unit step of a facing along the `x` axis.
pub open spec fn dir_dx(d: Direction) -> int {
    match d {
        Direction::North => 0,
        Direction::East => 1,
        Direction::South => 0,
        Direction::West => -1,
    }
}

/// Horizontal unit step of a facing along the `z` axis.
pub open spec fn dir_dz(d: Direction) -> int {
    match d {
        Direction::North => -1,
        Direction::East => 0,
        Direction::South => 1,
        Direction::West => 0,
    }
}

/// A cell of the integer 3D lattice; `y` is altitude.
#[derive(Clone, Copy, Debug, PartialEq, Eq, Structural)]
pub struct GridPosition {
    pub x: i32,
    pub y: i32,
    pub z: i32,
}

impl GridPosition {
    /// The adjacent cell one unit along facing `d`, at the same altitude.
    pub open spec fn spec_step(self, d: Direction) -> GridPosition {
        GridPosition { x: (self.x + dir_dx(d)) as i32, y: self.y, z: (self.z + dir_dz(d)) as i32 }
    }

    /// The cell one altitude level above.
    pub open spec fn spec_up(self) -> GridPosition {
        GridPosition { x: self.x, y: (self.y + 1) as i32, z: self.z }
    }

    /// The cell one altitude level below.
    pub open spec fn spec_down(self) -> GridPosition {
        GridPosition { x: self.x, y: (self.y - 1) as i32, z: self.z }
    }

    /// One horizontal step in any direction stays representable.
    pub open spec fn horizontal_step_in_range(self) -> bool {
        i32::MIN < self.x < i32::MAX && i32::MIN < self.z < i32::MAX
    }

    fn step(&self, d: Direction) -> (r: GridPosition)
        requires
            self.horizontal_step_in_range(),
        ensures
            r == self.spec_step(d),
    {
        match d {
            Direction::North => GridPosition { x: self.x, y: self.y, z: self.z - 1 },
            Direction::East => GridPosition { x: self.x + 1, y: self.y, z: self.z },
            Direction::South => GridPosition { x: self.x, y: self.y, z: self.z + 1 },
            Direction::West => GridPosition { x: self.x - 1, y: self.y, z: self.z },
        }
    }

    /// The adjacent cell straight ahead of facing `dir`.
    pub fn forward(&self, dir: &GridDirection) -> (r: GridPosition)
        requires
            self.horizontal_step_in_range(),
        ensures
            r == self.spec_step(dir.0),
    {
        self.step(dir.0)
    }

    /// The adjacent cell to the right of facing `dir`.
    pub fn right(&self, dir: &GridDirection) -> (r: GridPosition)
        requires
            self.horizontal_step_in_range(),
        ensures
            r == self.spec_step(dir.0.spec_right()),
    {
        self.step(dir.0.right())
    }

    /// The adjacent cell behind facing `dir`.
    pub fn back(&self, dir: &GridDirection) -> (r: GridPosition)
        requires
            self.horizontal_step_in_range(),
        ensures
            r == self.spec_step(dir.0.spec_reverse()),
    {
        self.step(dir.0.reverse())
    }

    /// The adjacent cell to the left of facing `dir`.
    pub fn left(&self, dir: &GridDirection) -> (r: GridPosition)
        requires
            self.horizontal_step_in_range(),
        ensures
            r == self.spec_step(dir.0.spec_left()),
    {
        self.step(dir.0.left())
    }

    pub fn up(&self) -> (r: GridPosition)
        requires
            self.y < i32::MAX,
        ensures
            r == self.spec_up(),
    {
        GridPosition { x: self.x, y: self.y + 1, z: self.z }
    }

    pub fn down(&self) -> (r: GridPosition)
        requires
            self.y > i32::MIN,
        ensures
            r == self.spec_down(),
    {
        GridPosition { x: self.x, y: self.y - 1, z: self.z }
    }

    /// Near and far walkable-edge heights of this cell along `edge_direction`.
    ///
    /// A flat cell's surface sits at its own altitude on both edges. A ramp
    /// cell's surface is lifted by one on the edges that the ramp's facing
    /// (its uphill side) points at; which edges those are depends only on
    /// the quarter-turn offset between `edge_direction` and the ramp facing.
    pub open spec fn spec_edge_heights(
        self,
        edge_direction: Direction,
        ramp_direction: Option<GridDirection>,
    ) -> (int, int) {
        match ramp_direction {
            Some(rd) => {
                let offset = edge_offsets(
                    (edge_direction.spec_index() - rd.0.spec_index()) % 4,
                );
                (self.y + offset.0, self.y + offset.1)
            },
            None => (self.y as int, self.y as int),
        }
    }

    /// Computes the edge-height pair of this cell along `edge_direction`,
    /// given the facing of the ramp occupying it, if any.
    pub fn edge_heights(
        &self,
        edge_direction: GridDirection,
        ramp_direction: Option<GridDirection>,
    ) -> (r: (i32, i32))
        requires
            self.y < i32::MAX,
        ensures
            (r.0 as int, r.1 as int) == self.spec_edge_heights(edge_direction.0, ramp_direction),
    {
        if let Some(rd) = ramp_direction {
            let edge_index = direction_vector_offset(&edge_direction);
            let ramp_index = direction_vector_offset(&rd);
            let diff = (edge_index + 4 - ramp_index) % 4;
            let offset: (i32, i32) = match diff {
                0 => (1, 1),
                3 => (0, 1),
                2 => (0, 0),
                _ => (1, 0),
            };
            (self.y + offset.0, self.y + offset.1)
        } else {
            (self.y, self.y)
        }
    }
}

impl Default for GridPosition {
    /// The lattice origin.
    fn default() -> (r: GridPosition)
        ensures
            r == (GridPosition { x: 0, y: 0, z: 0 }),
    {
        GridPosition { x: 0, y: 0, z: 0 }
    }
}

/// Edge-height offsets of a ramp cell for a given quarter-turn difference
/// between the edge direction and the ramp's facing: looking uphill both
/// edges are high, looking downhill both are low, and looking across the
/// slope one edge of the pair is lifted.
pub open spec fn edge_offsets(diff: int) -> (int, int) {
    if diff == 0 {
        (1, 1)
    } else if diff == 3 {
        (0, 1)
    } else if diff == 2 {
        (0, 0)
    } else {
        (1, 0)
    }
}

/// Position of a facing in the fixed North, East, South, West cycle.
fn direction_vector_offset(direction: &GridDirection) -> (i: usize)
    ensures
        i == direction.0.spec_index(),
{
    match direction.0 {
        Direction::North => 0,
        Direction::East => 1,
        Direction::South => 2,
        Direction::West => 3,
    }
}

/// Law: a flat cell reports the same height on both edges, whatever the
/// requested direction.
pub proof fn lemma_edge_heights_flat(p: GridPosition, d: Direction)
    ensures
        p.spec_edge_heights(d, None) == (p.y as int, p.y as int),
{
}

} // verus!
