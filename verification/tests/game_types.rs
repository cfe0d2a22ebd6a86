use orkkypely::assets::Animation;
use orkkypely::assets::Scene;
use orkkypely::character::Character;
use orkkypely::character::CurrentAnimation;
use orkkypely::keymap::Keymap;
use orkkypely::keymap::KeymapKey;
use orkkypely::map::MapEntityPhysics;
use orkkypely::types::MoveCycle;
use orkkypely::types::MoveIntent;
use orkkypely::types::PlayerIds;
use orkkypely::types::Point;

#[test]
fn player_ids_count_up_and_repeat() {
    let mut ids = PlayerIds::new();
    assert_eq!(ids.provide_player_id("alice"), 0);
    assert_eq!(ids.provide_player_id("bob"), 1);
    assert_eq!(ids.provide_player_id("alice"), 0);
    assert_eq!(ids.provide_player_id("carol"), 2);
    assert_eq!(ids.provide_player_id("bob"), 1);
}

#[test]
fn move_cycle_wraps_around() {
    let p1 = Point { x: 1, z: 2, y: 0 };
    let p2 = Point { x: 3, z: 4, y: 0 };
    let mut cycle = MoveCycle { current: 0, targets: vec![p1, p2] };
    assert_eq!(cycle.get_next(), p1);
    assert_eq!(cycle.get_next(), p2);
    assert_eq!(cycle.get_next(), p1);
}

#[test]
fn default_keymap_is_wasd() {
    let keymap = Keymap::default();
    assert_eq!(keymap.move_forward, KeymapKey::W);
    assert_eq!(keymap.move_backward, KeymapKey::S);
    assert_eq!(keymap.move_left, KeymapKey::A);
    assert_eq!(keymap.move_right, KeymapKey::D);
    assert_eq!(keymap.attack_1, KeymapKey::MouseLeft);
    assert_eq!(keymap.weapon_special_function, KeymapKey::MouseRight);
    assert_eq!(keymap.inventory_1, KeymapKey::Key1);
    assert_eq!(keymap.inventory_5, KeymapKey::Key5);
    assert_eq!(keymap.jump, KeymapKey::Space);
    assert_eq!(keymap.run, KeymapKey::LShift);
    assert_eq!(keymap.crouch, KeymapKey::Ctrl);
}

#[test]
fn unbound_is_the_default_key() {
    assert_eq!(KeymapKey::default(), KeymapKey::Unbound);
}

#[test]
fn characters_start_idle() {
    assert_eq!(CurrentAnimation::default(), CurrentAnimation::IdleAnimation);
    let c = Character::default();
    assert_eq!(c.current_animation, CurrentAnimation::IdleAnimation);
    assert_eq!(c.health, 0);
    assert!(!c.moving);
}

#[test]
fn templates_default_to_static_physics() {
    assert_eq!(MapEntityPhysics::default(), MapEntityPhysics::Static);
}

#[test]
fn default_intent_is_not_moving() {
    let mi = MoveIntent::default();
    assert!(!mi.move_forward && !mi.move_backward && !mi.move_leftward && !mi.move_rightward);
}

#[test]
fn asset_placeholders_construct() {
    let _animation = Animation::new("soldier", "walk");
    let _scene = Scene {};
}
