//! The movement resolver: one attempt in, exactly one outcome out.
//!
//! Given a mover's cell and a travel direction, the resolver examines the
//! three possible landings ahead — one level up, level, one level down, in
//! that priority order — and picks the first whose walkable surface lines
//! up with the source cell's, which has solid footing below, is not itself
//! solid, and is not a ramp squeezed under a ceiling. If none qualifies the
//! move is blocked, and the blocked target names the cell the mover should
//! visually bump toward: one level up when pushing further up a ramp's own
//! slope, straight ahead otherwise.
//!
//! Resolution is a total, pure function of the placement set and the
//! inputs; it never mutates state itself.

use vstd::prelude::*;

use crate::direction::Direction;
use crate::direction::GridDirection;
use crate::level::Level;
use crate::level::Placement;
use crate::level::spec_has_collider;
use crate::level::spec_ramp_at;
use crate::position::GridPosition;

verus! {

/// A request to move one cell along a direction, decoupled from facing so
/// that strafing and backstepping work.
#[derive(Clone, Copy, Debug, PartialEq, Eq, Structural)]
pub struct GridPositionMoveAttempt(pub GridDirection);

/// A resolved move: the mover's new authoritative cell.
#[derive(Clone, Copy, Debug, PartialEq, Eq, Structural)]
pub struct GridPositionMove(pub GridPosition);

/// A request to face a new direction; never consults occupancy.
#[derive(Clone, Copy, Debug, PartialEq, Eq, Structural)]
pub struct GridDirectionMove(pub GridDirection);

/// A blocked move: the cell the mover bumps toward without entering.
#[derive(Clone, Copy, Debug, PartialEq, Eq, Structural)]
pub struct GridMoveBlocked(pub GridPosition);

/// What one movement attempt resolves to.
#[derive(Clone, Copy, Debug, PartialEq, Eq, Structural)]
pub enum MoveOutcome {
    /// The attempt succeeds; the mover's position becomes this cell.
    Resolved(GridPosition),
    /// The attempt fails; the cell is the visual bump target only.
    Blocked(GridPosition),
}

/// Room to look one cell around every candidate landing: one horizontal
/// step, and two altitude levels in both directions.
pub open spec fn resolution_in_range(pos: GridPosition) -> bool {
    &&& pos.horizontal_step_in_range()
    &&& i32::MIN + 2 <= pos.y <= i32::MAX - 2
}

/// The edge heights of the mover's own cell along the travel direction.
pub open spec fn spec_source_edges(
    placements: Seq<Placement>,
    pos: GridPosition,
    travel: Direction,
) -> (int, int) {
    pos.spec_edge_heights(travel, spec_ramp_at(placements, pos))
}

/// The three candidate landings ahead of `pos` along `travel`, in priority
/// order: `0` is one level up, `1` the same level, `2` one level down.
pub open spec fn spec_candidate(pos: GridPosition, travel: Direction, k: int) -> GridPosition {
    if k == 0 {
        pos.spec_step(travel).spec_up()
    } else if k == 1 {
        pos.spec_step(travel)
    } else {
        pos.spec_step(travel).spec_down()
    }
}

/// Whether `dest` is a legal landing for a mover whose source cell shows
/// `source_edges` along `travel`: the walkable surfaces meet across the
/// boundary, a collider directly below gives footing, the cell itself is
/// free, and a ramp there has no collider directly above it.
pub open spec fn spec_legal_landing(
    placements: Seq<Placement>,
    source_edges: (int, int),
    travel: Direction,
    dest: GridPosition,
) -> bool {
    let dest_ramp = spec_ramp_at(placements, dest);
    let dest_edges = dest.spec_edge_heights(travel.spec_reverse(), dest_ramp);
    &&& source_edges == (dest_edges.1, dest_edges.0)
    &&& spec_has_collider(placements, dest.spec_down())
    &&& !spec_has_collider(placements, dest)
    &&& !(dest_ramp is Some && spec_has_collider(placements, dest.spec_up()))
}

/// The cell a blocked mover bumps toward: one level up when pushing further
/// up the slope of the ramp it stands on, straight ahead otherwise.
pub open spec fn spec_blocked_target(
    placements: Seq<Placement>,
    pos: GridPosition,
    travel: Direction,
) -> GridPosition {
    if spec_ramp_at(placements, pos) == Some(GridDirection(travel)) {
        pos.spec_step(travel).spec_up()
    } else {
        pos.spec_step(travel)
    }
}

/// What a movement attempt resolves to: the highest-priority legal landing
/// among the three candidates, or the blocked bump target when none is
/// legal.
pub open spec fn spec_resolve(
    placements: Seq<Placement>,
    pos: GridPosition,
    travel: Direction,
) -> MoveOutcome {
    let source_edges = spec_source_edges(placements, pos, travel);
    if spec_legal_landing(placements, source_edges, travel, spec_candidate(pos, travel, 0)) {
        MoveOutcome::Resolved(spec_candidate(pos, travel, 0))
    } else if spec_legal_landing(placements, source_edges, travel, spec_candidate(pos, travel, 1)) {
        MoveOutcome::Resolved(spec_candidate(pos, travel, 1))
    } else if spec_legal_landing(placements, source_edges, travel, spec_candidate(pos, travel, 2)) {
        MoveOutcome::Resolved(spec_candidate(pos, travel, 2))
    } else {
        MoveOutcome::Blocked(spec_blocked_target(placements, pos, travel))
    }
}

/// Whether `dest` is a legal landing, read off the level's placements.
fn is_legal_landing(
    level: &Level,
    source_edges: (i32, i32),
    travel: &GridDirection,
    dest: &GridPosition,
) -> (r: bool)
    requires
        i32::MIN < dest.y < i32::MAX,
    ensures
        r == spec_legal_landing(
            level@,
            (source_edges.0 as int, source_edges.1 as int),
            travel.0,
            *dest,
        ),
{
    let dest_ramp = level.ramp_at(dest);
    let dest_edges = dest.edge_heights(travel.reverse(), dest_ramp);
    let edge_matches = source_edges.0 == dest_edges.1 && source_edges.1 == dest_edges.0;
    let has_collider = level.has_collider(dest);
    let has_collider_below = level.has_collider(&dest.down());
    let has_collider_above = level.has_collider(&dest.up());
    let has_ramp = dest_ramp.is_some();
    edge_matches && has_collider_below && !has_collider && !(has_ramp && has_collider_above)
}

/// Resolves one movement attempt from `position` along `travel` against
/// the level's placements. Always returns exactly one outcome; a blocked
/// move is an expected result, not an error, and nothing is mutated here.
pub fn resolve_move(level: &Level, position: &GridPosition, travel: &GridDirection) -> (outcome:
    MoveOutcome)
    requires
        resolution_in_range(*position),
    ensures
        outcome == spec_resolve(level@, *position, travel.0),
        outcome matches MoveOutcome::Resolved(q) ==> spec_has_collider(level@, q.spec_down())
            && !spec_has_collider(level@, q),
        outcome matches MoveOutcome::Blocked(t) ==> t == spec_blocked_target(
            level@,
            *position,
            travel.0,
        ),
{
    let source_ramp = level.ramp_at(position);
    let source_edges = position.edge_heights(*travel, source_ramp);
    let forward_cell = position.forward(travel);

    let candidate_up = forward_cell.up();
    if is_legal_landing(level, source_edges, travel, &candidate_up) {
        return MoveOutcome::Resolved(candidate_up);
    }
    if is_legal_landing(level, source_edges, travel, &forward_cell) {
        return MoveOutcome::Resolved(forward_cell);
    }
    let candidate_down = forward_cell.down();
    if is_legal_landing(level, source_edges, travel, &candidate_down) {
        return MoveOutcome::Resolved(candidate_down);
    }

    let on_own_slope = match source_ramp {
        Some(ramp_direction) => ramp_direction == *travel,
        None => false,
    };
    if on_own_slope {
        MoveOutcome::Blocked(forward_cell.up())
    } else {
        MoveOutcome::Blocked(forward_cell)
    }
}

/// Law: resolution is total — every attempt yields exactly one outcome,
/// either a resolved destination or a blocked target, never neither.
pub proof fn lemma_resolve_total(placements: Seq<Placement>, pos: GridPosition, travel: Direction)
    ensures
        spec_resolve(placements, pos, travel) is Resolved || spec_resolve(placements, pos, travel)
            is Blocked,
        !(spec_resolve(placements, pos, travel) is Resolved && spec_resolve(
            placements,
            pos,
            travel,
        ) is Blocked),
{
}

/// Law: resolution is pure — identical occupancy and identical inputs give
/// identical outcomes; no hidden state can change the result.
pub proof fn lemma_resolve_deterministic(
    placements1: Seq<Placement>,
    placements2: Seq<Placement>,
    pos1: GridPosition,
    pos2: GridPosition,
    travel1: Direction,
    travel2: Direction,
)
    requires
        placements1 == placements2,
        pos1 == pos2,
        travel1 == travel2,
    ensures
        spec_resolve(placements1, pos1, travel1) == spec_resolve(placements2, pos2, travel2),
{
}

/// Law: a resolved destination is adjacent — exactly one horizontal step
/// along the travel direction, at most one altitude level away. Altitudes
/// are never skipped, whatever the terrain.
pub proof fn lemma_resolved_is_adjacent(
    placements: Seq<Placement>,
    pos: GridPosition,
    travel: Direction,
)
    requires
        resolution_in_range(pos),
    ensures
        spec_resolve(placements, pos, travel) matches MoveOutcome::Resolved(q) ==> {
            &&& q.x == pos.x + crate::position::dir_dx(travel)
            &&& q.z == pos.z + crate::position::dir_dz(travel)
            &&& pos.y - 1 <= q.y <= pos.y + 1
        },
{
}

/// Law: standing on a ramp and travelling toward its uphill side, a
/// resolved move never descends — the slope carries the mover level or
/// upward, so repeated travel up a ramp yields a monotonic altitude
/// sequence.
pub proof fn lemma_uphill_move_never_descends(
    placements: Seq<Placement>,
    pos: GridPosition,
    travel: Direction,
)
    requires
        resolution_in_range(pos),
        spec_ramp_at(placements, pos) == Some(GridDirection(travel)),
    ensures
        spec_resolve(placements, pos, travel) matches MoveOutcome::Resolved(q) ==> q.y
            >= pos.y,
{
}

/// Law: a resolved destination always has footing — a collider directly
/// below it — and is itself free of colliders.
pub proof fn lemma_resolved_footing(
    placements: Seq<Placement>,
    pos: GridPosition,
    travel: Direction,
)
    ensures
        spec_resolve(placements, pos, travel) matches MoveOutcome::Resolved(q) ==> {
            &&& spec_has_collider(placements, q.spec_down())
            &&& !spec_has_collider(placements, q)
        },
{
}

} // verus!
