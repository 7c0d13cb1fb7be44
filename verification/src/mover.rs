//! Authoritative mover state and the two-axis transition protocol.
//!
//! A mover — in practice the player camera — carries its current cell, its
//! facing, and a snapshot of the cell it last moved away from, which the
//! animation layer interpolates from. The two axes are independent: a
//! movement attempt goes through the resolver and, when resolved, updates
//! the previous-position snapshot exactly once before overwriting the
//! position; a turn request sets the facing immediately and never consults
//! occupancy. A blocked attempt leaves the mover untouched.

use vstd::prelude::*;

use crate::direction::Direction;
use crate::direction::GridDirection;
use crate::level::Level;
use crate::movement::GridPositionMove;
use crate::movement::MoveOutcome;
use crate::movement::resolution_in_range;
use crate::movement::resolve_move;
use crate::movement::spec_resolve;
use crate::position::GridPosition;

verus! {

/// Per-entity movement state: where it is, where it faces, and where it
/// last was.
#[derive(Clone, Copy, Debug, PartialEq, Eq, Structural)]
pub struct Mover {
    pub position: GridPosition,
    pub direction: GridDirection,
    /// The cell occupied immediately before the most recent resolved move;
    /// equals `position` until the first move resolves.
    pub previous_position: GridPosition,
}

impl Mover {
    /// A mover spawned at `position` facing `direction`, with no movement
    /// history yet.
    pub fn new(position: GridPosition, direction: GridDirection) -> (m: Mover)
        ensures
            m.position == position,
            m.direction == direction,
            m.previous_position == position,
    {
        Mover { position, direction, previous_position: position }
    }

    /// Records `position` as the latest cell and hands back the cell held
    /// before, for the animation layer to interpolate from.
    pub fn update_previous(&mut self, position: GridPosition) -> (previous: GridPosition)
        ensures
            previous == old(self).previous_position,
            final(self).previous_position == position,
            final(self).position == old(self).position,
            final(self).direction == old(self).direction,
    {
        let previous = self.previous_position;
        self.previous_position = position;
        previous
    }

    /// Applies a resolved move: the previous-position snapshot takes the
    /// old cell and the position takes the destination, atomically and
    /// exactly once.
    pub fn apply_move(&mut self, movement: GridPositionMove)
        ensures
            final(self).position == movement.0,
            final(self).previous_position == old(self).position,
            final(self).direction == old(self).direction,
    {
        let current = self.position;
        self.update_previous(current);
        self.position = movement.0;
    }

    /// Resolves one movement attempt along `travel` and applies it: a
    /// resolved move goes through [`Mover::apply_move`]; a blocked attempt
    /// changes nothing. Facing is never touched — travel is decoupled from
    /// facing, so strafing works.
    pub fn attempt_move(&mut self, level: &Level, travel: GridDirection) -> (outcome: MoveOutcome)
        requires
            resolution_in_range(old(self).position),
        ensures
            outcome == spec_resolve(level@, old(self).position, travel.0),
            outcome matches MoveOutcome::Resolved(q) ==> final(self).position == q
                && final(self).previous_position == old(self).position,
            outcome is Blocked ==> *final(self) == *old(self),
            final(self).direction == old(self).direction,
    {
        let outcome = resolve_move(level, &self.position, &travel);
        if let MoveOutcome::Resolved(destination) = outcome {
            self.apply_move(GridPositionMove(destination));
        }
        outcome
    }

    /// Faces the mover toward `direction` immediately. Turning is decoupled
    /// from movement and never consults occupancy.
    pub fn turn(&mut self, direction: GridDirection)
        ensures
            final(self).direction == direction,
            final(self).position == old(self).position,
            final(self).previous_position == old(self).previous_position,
    {
        self.direction = direction;
    }
}

/// The player pose that survives across sessions: where the player stands
/// and which way they face.
#[derive(Clone, Copy, Debug, PartialEq, Eq, Structural)]
pub struct PlayerPersist {
    pub position: GridPosition,
    pub direction: GridDirection,
}

impl Default for PlayerPersist {
    /// The level's spawn pose, used until a save exists and after a save
    /// is cleared.
    fn default() -> (r: PlayerPersist)
        ensures
            r.position == (GridPosition { x: 4, y: 1, z: 7 }),
            r.direction == GridDirection(Direction::North),
    {
        PlayerPersist {
            position: GridPosition { x: 4, y: 1, z: 7 },
            direction: GridDirection(Direction::North),
        }
    }
}

} // verus!
