//! Animation input adapter: what the presentation layer should animate.
//!
//! The authoritative grid state changes instantly; the visual transform
//! catches up by interpolation outside this crate. This module decides the
//! interpolation endpoints, all of them grid state: a resolved move becomes
//! a tween from the cell left behind to the new cell, ending at the mover's
//! facing; a blocked move becomes a bump from the mover's unchanged cell
//! toward the blocked target and back. Easing curves, durations, the bump's
//! fractional reach and the continuous ramp-height correction are
//! presentation tuning on floating-point transforms and stay outside.
//! Starting a new move or bump replaces any animation still running on the
//! same mover: last intent wins.

use vstd::prelude::*;

use crate::direction::GridDirection;
use crate::mover::Mover;
use crate::movement::GridMoveBlocked;
use crate::position::GridPosition;

verus! {

/// Endpoints of the tween played after a resolved move.
#[derive(Clone, Copy, Debug, PartialEq, Eq, Structural)]
pub struct GridMoveTween {
    /// Where the interpolated translation starts: the cell moved away from.
    pub start_position: GridPosition,
    /// Where it ends: the mover's new authoritative cell.
    pub end_position: GridPosition,
    /// The facing the interpolated rotation settles on.
    pub end_facing: GridDirection,
}

/// Endpoints of the two-phase bump played after a blocked move: ease toward
/// a fraction of the way to the blocked target, then back.
#[derive(Clone, Copy, Debug, PartialEq, Eq, Structural)]
pub struct GridMoveBlockedTween {
    /// Where the bump starts and returns to: the mover's unchanged cell.
    pub start_position: GridPosition,
    /// The cell bumped toward but never reached.
    pub blocked_position: GridPosition,
    /// The facing the interpolated rotation settles on.
    pub end_facing: GridDirection,
}

/// The tween for the move that `mover` just resolved: interpolate from the
/// cell it left to the cell it stands on, settling on its facing.
pub fn plan_move_animation(mover: &Mover) -> (t: GridMoveTween)
    ensures
        t.start_position == mover.previous_position,
        t.end_position == mover.position,
        t.end_facing == mover.direction,
{
    GridMoveTween {
        start_position: mover.previous_position,
        end_position: mover.position,
        end_facing: mover.direction,
    }
}

/// The bump for an attempt of `mover` that was just blocked: bump from the
/// cell it still stands on toward the blocked target, and return.
pub fn plan_blocked_animation(mover: &Mover, blocked: &GridMoveBlocked) -> (t: GridMoveBlockedTween)
    ensures
        t.start_position == mover.position,
        t.blocked_position == blocked.0,
        t.end_facing == mover.direction,
{
    GridMoveBlockedTween {
        start_position: mover.position,
        blocked_position: blocked.0,
        end_facing: mover.direction,
    }
}

} // verus!
