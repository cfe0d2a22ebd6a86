//! The animation state rule: which animation an entity should switch
//! to, given what it is doing and what is already playing.
use vstd::prelude::*;

use crate::types::CurrentAnimation;
use crate::types::GameEntity;
use crate::types::StartAnimation;
use crate::types::StartAnimationView;

verus! {

/// Whether a switch to `target` is wanted: yes while nothing is
/// playing or something else is.
pub open spec fn wants_animation(current: Option<Seq<char>>, target: Seq<char>) -> bool {
    match current {
        Some(playing) => playing != target,
        None => true,
    }
}

/// The animation to start for an entity, given the name of the
/// animation now playing, if any.
///
/// Nothing is started without an asset. An attacking entity switches
/// to its current weapon's animation, played once; lacking a weapon
/// or a weapon animation it stays as it is. Otherwise a moving entity
/// switches to its walk animation and a resting one to its idle
/// animation, both repeated; an animation already playing is never
/// restarted.
pub open spec fn animation_action(ge: GameEntity, current: Option<Seq<char>>) -> Option<
    StartAnimationView,
> {
    match ge.asset {
        None => None,
        Some(asset) => {
            if ge.attacking {
                if 0 <= ge.current_weapon < ge.weapons@.len() {
                    match ge.weapons@[ge.current_weapon as int].animation {
                        Some(attack_animation) => if wants_animation(current, attack_animation@) {
                            Some(
                                StartAnimationView {
                                    asset: asset@,
                                    animation: attack_animation@,
                                    repeat: false,
                                },
                            )
                        } else {
                            None
                        },
                        None => None,
                    }
                } else {
                    None
                }
            } else if ge.move_intent.spec_is_moving() {
                match ge.walk_animation {
                    Some(walk) => if wants_animation(current, walk@) {
                        Some(StartAnimationView { asset: asset@, animation: walk@, repeat: true })
                    } else {
                        None
                    },
                    None => None,
                }
            } else {
                match ge.idle_animation {
                    Some(idle) => if wants_animation(current, idle@) {
                        Some(StartAnimationView { asset: asset@, animation: idle@, repeat: true })
                    } else {
                        None
                    },
                    None => None,
                }
            }
        },
    }
}

/// The playing animation's name, if one is playing.
pub open spec fn playing_name(current: Option<&CurrentAnimation>) -> Option<Seq<char>> {
    match current {
        Some(c) => Some(c.animation@),
        None => None,
    }
}

/// Decides the animation to start for one entity, from its state and
/// the animation it is currently playing.
pub fn ensure_animation(game_entity: &GameEntity, current_animation: Option<&CurrentAnimation>) -> (r:
    Option<StartAnimation>)
    ensures
        r.deep_view() == animation_action(*game_entity, playing_name(current_animation)),
{
    let asset = match &game_entity.asset {
        Some(asset) => asset,
        None => {
            return None;
        },
    };

    if game_entity.attacking {
        if game_entity.current_weapon >= game_entity.weapons.len() {
            return None;
        }
        let current_weapon = &game_entity.weapons[game_entity.current_weapon];

        if let Some(attack_animation) = &current_weapon.animation {
            let cond = match current_animation {
                Some(current) => !current.animation.eq(attack_animation),
                None => true,
            };

            if cond {
                return Some(
                    StartAnimation {
                        asset: asset.clone(),
                        animation: attack_animation.clone(),
                        repeat: false,
                    },
                );
            }
        }

        return None;
    }

    if game_entity.is_moving() {
        if let Some(walk_animation) = &game_entity.walk_animation {
            let cond = match current_animation {
                Some(current) => !current.animation.eq(walk_animation),
                None => true,
            };

            if cond {
                return Some(
                    StartAnimation {
                        asset: asset.clone(),
                        animation: walk_animation.clone(),
                        repeat: true,
                    },
                );
            }
        }
        None
    } else {
        if let Some(idle_animation) = &game_entity.idle_animation {
            let cond = match current_animation {
                Some(current) => !current.animation.eq(idle_animation),
                None => true,
            };

            if cond {
                return Some(
                    StartAnimation {
                        asset: asset.clone(),
                        animation: idle_animation.clone(),
                        repeat: true,
                    },
                );
            }
        }
        None
    }
}

} // verus!
