//! Mapping from discrete key presses to grid commands.
//!
//! The input layer delivers one event per physical key press. Which command
//! a key means depends on the mover's current facing: the four movement
//! keys travel relative to the facing (forward, strafe right, backstep,
//! strafe left), the two turn keys rotate it, and the remaining pair saves
//! or clears the persisted player pose. Reading the keyboard stays outside
//! this crate; only the decision lives here.

use vstd::prelude::*;

use crate::direction::GridDirection;
use crate::movement::GridDirectionMove;
use crate::movement::GridPositionMoveAttempt;

verus! {

/// The keys the grid movement layer reacts to.
#[derive(Clone, Copy, Debug, PartialEq, Eq, Structural)]
pub enum InputKey {
    /// Move forward.
    KeyW,
    /// Strafe left.
    KeyA,
    /// Backstep.
    KeyS,
    /// Strafe right.
    KeyD,
    /// Turn left.
    KeyQ,
    /// Turn right.
    KeyE,
    /// Save the player pose.
    KeyP,
    /// Clear the saved player pose.
    KeyO,
}

/// What a key press asks the grid layer to do.
#[derive(Clone, Copy, Debug, PartialEq, Eq, Structural)]
pub enum GridCommand {
    /// Attempt to move one cell along the direction, without turning.
    MoveAttempt(GridPositionMoveAttempt),
    /// Face the direction immediately.
    Turn(GridDirectionMove),
    /// Persist the current pose.
    Save,
    /// Drop the persisted pose and fall back to the spawn pose.
    ClearSave,
}

/// The command a key press means for a mover currently facing `facing`.
pub open spec fn spec_movement_command(key: InputKey, facing: GridDirection) -> GridCommand {
    match key {
        InputKey::KeyW => GridCommand::MoveAttempt(GridPositionMoveAttempt(facing)),
        InputKey::KeyD => GridCommand::MoveAttempt(
            GridPositionMoveAttempt(GridDirection(facing.0.spec_right())),
        ),
        InputKey::KeyS => GridCommand::MoveAttempt(
            GridPositionMoveAttempt(GridDirection(facing.0.spec_reverse())),
        ),
        InputKey::KeyA => GridCommand::MoveAttempt(
            GridPositionMoveAttempt(GridDirection(facing.0.spec_left())),
        ),
        InputKey::KeyQ => GridCommand::Turn(GridDirectionMove(GridDirection(facing.0.spec_left()))),
        InputKey::KeyE => GridCommand::Turn(
            GridDirectionMove(GridDirection(facing.0.spec_right())),
        ),
        InputKey::KeyP => GridCommand::Save,
        InputKey::KeyO => GridCommand::ClearSave,
    }
}

/// Decides the grid command for one key press, given the current facing.
pub fn movement_command(key: InputKey, facing: GridDirection) -> (c: GridCommand)
    ensures
        c == spec_movement_command(key, facing),
{
    match key {
        InputKey::KeyW => GridCommand::MoveAttempt(GridPositionMoveAttempt(facing)),
        InputKey::KeyD => GridCommand::MoveAttempt(GridPositionMoveAttempt(facing.right())),
        InputKey::KeyS => GridCommand::MoveAttempt(GridPositionMoveAttempt(facing.reverse())),
        InputKey::KeyA => GridCommand::MoveAttempt(GridPositionMoveAttempt(facing.left())),
        InputKey::KeyQ => GridCommand::Turn(GridDirectionMove(facing.left())),
        InputKey::KeyE => GridCommand::Turn(GridDirectionMove(facing.right())),
        InputKey::KeyP => GridCommand::Save,
        InputKey::KeyO => GridCommand::ClearSave,
    }
}

} // verus!
