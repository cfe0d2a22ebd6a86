//! The input rules: how movement keys drive the movement intent, and
//! which animation an attack click starts.
use vstd::prelude::*;

use crate::keymap::KeymapKey;
use crate::types::GameEntity;
use crate::types::MoveIntent;
use crate::types::StartAnimation;
use crate::types::StartAnimationView;

verus! {

/// The movement intent after one key went down or up: W, A, S and D
/// set or clear their flag, every other key changes nothing.
pub open spec fn spec_apply_movement_key(mi: MoveIntent, key: KeymapKey, pressed: bool) -> MoveIntent {
    match key {
        KeymapKey::W => MoveIntent { move_forward: pressed, ..mi },
        KeymapKey::A => MoveIntent { move_leftward: pressed, ..mi },
        KeymapKey::S => MoveIntent { move_backward: pressed, ..mi },
        KeymapKey::D => MoveIntent { move_rightward: pressed, ..mi },
        _ => mi,
    }
}

/// Applies one pressed (`pressed` true) or released key to the
/// movement intent, as the keyboard handler does.
pub fn apply_movement_key(move_intent: &mut MoveIntent, key: KeymapKey, pressed: bool)
    ensures
        *final(move_intent) == spec_apply_movement_key(*old(move_intent), key, pressed),
{
    match key {
        KeymapKey::W => {
            move_intent.move_forward = pressed;
        },
        KeymapKey::A => {
            move_intent.move_leftward = pressed;
        },
        KeymapKey::S => {
            move_intent.move_backward = pressed;
        },
        KeymapKey::D => {
            move_intent.move_rightward = pressed;
        },
        _ => {},
    }
}

/// The animation an attack click starts: the current weapon's
/// animation on the entity's asset, repeated; nothing without a
/// weapon, a weapon animation or an asset.
pub open spec fn spec_attack_click_animation(ge: GameEntity) -> Option<StartAnimationView> {
    if 0 <= ge.current_weapon < ge.weapons@.len() {
        match (ge.asset, ge.weapons@[ge.current_weapon as int].animation) {
            (Some(asset), Some(animation)) => Some(
                StartAnimationView { asset: asset@, animation: animation@, repeat: true },
            ),
            _ => None,
        }
    } else {
        None
    }
}

/// Decides the animation to start when the attack button is pressed.
pub fn attack_click_animation(game_entity: &GameEntity) -> (r: Option<StartAnimation>)
    ensures
        r.deep_view() == spec_attack_click_animation(*game_entity),
{
    if game_entity.current_weapon >= game_entity.weapons.len() {
        return None;
    }
    let weapon = &game_entity.weapons[game_entity.current_weapon];
    match (&game_entity.asset, &weapon.animation) {
        (Some(asset), Some(animation)) => Some(
            StartAnimation { asset: asset.clone(), animation: animation.clone(), repeat: true },
        ),
        _ => None,
    }
}

} // verus!
