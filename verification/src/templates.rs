//! The template rule: what a template hands to an entity that refers
//! to it.
use vstd::prelude::*;

use crate::map::MapTemplate;
use crate::map::clone_opt_string;
use crate::map::clone_weapons;
use crate::types::GameEntity;

verus! {

/// Copies a template's asset, animations and weapons onto an entity
/// that refers to it, as the template handler does when a spawned
/// entity receives its template. The idle animation comes from the
/// template's `iddle_animation` field, spelled as the map format
/// spells it. Everything else about the entity, its jump animation
/// included, is untouched.
pub fn apply_template(game_entity: &mut GameEntity, template: &MapTemplate)
    ensures
        final(game_entity).asset.deep_view() == template.asset.deep_view(),
        final(game_entity).idle_animation.deep_view() == template.iddle_animation.deep_view(),
        final(game_entity).walk_animation.deep_view() == template.walk_animation.deep_view(),
        final(game_entity).run_animation.deep_view() == template.run_animation.deep_view(),
        final(game_entity).reload_animation.deep_view() == template.reload_animation.deep_view(),
        final(game_entity).shoot_animation.deep_view() == template.shoot_animation.deep_view(),
        final(game_entity).weapons.deep_view() == template.weapons.deep_view(),
        final(game_entity).entity_id == old(game_entity).entity_id,
        final(game_entity).template == old(game_entity).template,
        final(game_entity).current_weapon == old(game_entity).current_weapon,
        final(game_entity).jump_animation == old(game_entity).jump_animation,
        final(game_entity).max_health == old(game_entity).max_health,
        final(game_entity).curr_health == old(game_entity).curr_health,
        final(game_entity).move_intent == old(game_entity).move_intent,
        final(game_entity).yaw == old(game_entity).yaw,
        final(game_entity).pitch == old(game_entity).pitch,
        final(game_entity).npc == old(game_entity).npc,
        final(game_entity).attacking == old(game_entity).attacking,
        final(game_entity).running == old(game_entity).running,
{
    game_entity.asset = clone_opt_string(&template.asset);

    game_entity.idle_animation = clone_opt_string(&template.iddle_animation);
    game_entity.walk_animation = clone_opt_string(&template.walk_animation);
    game_entity.run_animation = clone_opt_string(&template.run_animation);
    game_entity.reload_animation = clone_opt_string(&template.reload_animation);
    game_entity.shoot_animation = clone_opt_string(&template.shoot_animation);

    game_entity.weapons = clone_weapons(&template.weapons);
}

} // verus!
