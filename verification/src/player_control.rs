//! The movement rule: which planar direction an entity's movement
//! intent resolves to.
use vstd::prelude::*;

use crate::types::MoveIntent;

verus! {

/// The planar direction for a movement intent, doubled so that the
/// half-unit diagonals stay integral: the engine front end scales the
/// pair by one half and rotates it by the entity's yaw. `None` when
/// no direction is wished for, and also for the contradictory
/// combinations (both forward and backward, three keys at once),
/// which move nowhere.
pub open spec fn spec_move_direction(mi: MoveIntent) -> Option<(i8, i8)> {
    if !mi.spec_is_moving() {
        None
    } else {
        match (mi.move_forward, mi.move_rightward, mi.move_backward, mi.move_leftward) {
            (true, true, false, false) => Some((1i8, -1i8)),
            (false, true, false, false) => Some((2i8, 0i8)),
            (false, true, true, false) => Some((1i8, 1i8)),
            (false, false, true, false) => Some((0i8, 2i8)),
            (false, false, true, true) => Some((-1i8, 1i8)),
            (false, false, false, true) => Some((-2i8, 0i8)),
            (true, false, false, true) => Some((-1i8, -1i8)),
            (true, false, false, false) => Some((0i8, -2i8)),
            _ => None,
        }
    }
}

/// Resolves a movement intent to its doubled planar direction, as
/// the entity mover does before rotating by the yaw and scaling by
/// the walk or run speed.
pub fn move_direction(move_intent: &MoveIntent) -> (r: Option<(i8, i8)>)
    ensures
        r == spec_move_direction(*move_intent),
{
    let moving = move_intent.move_forward || move_intent.move_rightward
        || move_intent.move_backward || move_intent.move_leftward;
    if !moving {
        return None;
    }
    match (
        move_intent.move_forward,
        move_intent.move_rightward,
        move_intent.move_backward,
        move_intent.move_leftward,
    ) {
        (true, true, false, false) => Some((1, -1)),
        (false, true, false, false) => Some((2, 0)),
        (false, true, true, false) => Some((1, 1)),
        (false, false, true, false) => Some((0, 2)),
        (false, false, true, true) => Some((-1, 1)),
        (false, false, false, true) => Some((-2, 0)),
        (true, false, false, true) => Some((-1, -1)),
        (true, false, false, false) => Some((0, -2)),
        _ => None,
    }
}

} // verus!
