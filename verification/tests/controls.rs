use orkkypely::animations::ensure_animation;
use orkkypely::console_plugin::Console;
use orkkypely::input_handling::apply_movement_key;
use orkkypely::input_handling::attack_click_animation;
use orkkypely::keymap::KeymapKey;
use orkkypely::map::Scalar;
use orkkypely::map::Weapon;
use orkkypely::map::WeaponType;
use orkkypely::player_control::move_direction;
use orkkypely::types::CurrentAnimation;
use orkkypely::types::GameEntity;
use orkkypely::types::MoveIntent;
use orkkypely::types::StartAnimation;

fn game_entity() -> GameEntity {
    GameEntity {
        entity_id: "e1".to_string(),
        template: "soldier".to_string(),
        current_weapon: 0,
        weapons: Vec::new(),
        asset: Some("soldier.glb".to_string()),
        idle_animation: Some("idle".to_string()),
        walk_animation: Some("walk".to_string()),
        jump_animation: None,
        run_animation: None,
        reload_animation: None,
        shoot_animation: None,
        max_health: Scalar(0),
        curr_health: Scalar(0),
        move_intent: MoveIntent::default(),
        yaw: Scalar(0),
        pitch: Scalar(0),
        npc: false,
        attacking: false,
        running: false,
    }
}

fn melee_weapon() -> Weapon {
    Weapon {
        weapon_type: WeaponType::Melee,
        animation: Some("slash".to_string()),
        damage: None,
        range: None,
        duration: None,
        ammo: None,
    }
}

#[test]
fn resting_entity_gets_idle_animation() {
    let ge = game_entity();
    let r = ensure_animation(&ge, None);
    assert_eq!(
        r,
        Some(StartAnimation {
            asset: "soldier.glb".to_string(),
            animation: "idle".to_string(),
            repeat: true,
        })
    );
}

#[test]
fn playing_animation_is_not_restarted() {
    let ge = game_entity();
    let current = CurrentAnimation {
        asset: "soldier.glb".to_string(),
        animation: "idle".to_string(),
        repeat: true,
    };
    assert_eq!(ensure_animation(&ge, Some(&current)), None);
}

#[test]
fn moving_entity_switches_to_walk() {
    let mut ge = game_entity();
    ge.move_intent.move_forward = true;
    let current = CurrentAnimation {
        asset: "soldier.glb".to_string(),
        animation: "idle".to_string(),
        repeat: true,
    };
    let r = ensure_animation(&ge, Some(&current));
    assert_eq!(
        r,
        Some(StartAnimation {
            asset: "soldier.glb".to_string(),
            animation: "walk".to_string(),
            repeat: true,
        })
    );
}

#[test]
fn attacking_entity_plays_weapon_animation_once() {
    let mut ge = game_entity();
    ge.attacking = true;
    ge.weapons.push(melee_weapon());
    let r = ensure_animation(&ge, None);
    assert_eq!(
        r,
        Some(StartAnimation {
            asset: "soldier.glb".to_string(),
            animation: "slash".to_string(),
            repeat: false,
        })
    );
}

#[test]
fn attacking_without_weapon_changes_nothing() {
    let mut ge = game_entity();
    ge.attacking = true;
    assert_eq!(ensure_animation(&ge, None), None);
}

#[test]
fn entity_without_asset_gets_no_animation() {
    let mut ge = game_entity();
    ge.asset = None;
    assert_eq!(ensure_animation(&ge, None), None);
}

#[test]
fn attack_click_uses_the_current_weapon() {
    let mut ge = game_entity();
    ge.weapons.push(melee_weapon());
    let r = attack_click_animation(&ge);
    assert_eq!(
        r,
        Some(StartAnimation {
            asset: "soldier.glb".to_string(),
            animation: "slash".to_string(),
            repeat: true,
        })
    );
    ge.weapons.clear();
    assert_eq!(attack_click_animation(&ge), None);
}

#[test]
fn movement_keys_drive_the_intent() {
    let mut mi = MoveIntent::default();
    apply_movement_key(&mut mi, KeymapKey::W, true);
    assert!(mi.move_forward);
    apply_movement_key(&mut mi, KeymapKey::A, true);
    assert!(mi.move_leftward);
    apply_movement_key(&mut mi, KeymapKey::Space, true);
    assert!(mi.move_forward && mi.move_leftward && !mi.move_backward && !mi.move_rightward);
    apply_movement_key(&mut mi, KeymapKey::W, false);
    assert!(!mi.move_forward);
}

#[test]
fn move_directions_match_the_table() {
    let mut mi = MoveIntent::default();
    assert_eq!(move_direction(&mi), None);
    mi.move_forward = true;
    assert_eq!(move_direction(&mi), Some((0, -2)));
    mi.move_rightward = true;
    assert_eq!(move_direction(&mi), Some((1, -1)));
    mi.move_forward = false;
    assert_eq!(move_direction(&mi), Some((2, 0)));
    mi.move_backward = true;
    assert_eq!(move_direction(&mi), Some((1, 1)));
    mi.move_forward = true;
    assert_eq!(move_direction(&mi), None);
}

#[test]
fn console_edits_and_submits_lines() {
    let mut console = Console::new();
    assert!(!console.active);
    console.toggle();
    assert!(console.active);
    console.append("AB");
    assert_eq!(console.current_line, "AB");
    console.backspace();
    assert_eq!(console.current_line, "A");
    console.backspace();
    console.backspace();
    assert_eq!(console.current_line, "");
    console.append("spawn npc");
    let line = console.submit();
    assert_eq!(line, "spawn npc");
    assert_eq!(console.current_line, "");
    assert_eq!(console.new_lines, vec!["spawn npc".to_string()]);
    console.toggle();
    assert!(!console.active);
}

#[test]
fn templates_hand_their_animations_to_the_entity() {
    let mut ge = game_entity();
    let template = orkkypely::map::MapTemplate {
        name: "soldier".to_string(),
        asset: Some("soldier.glb".to_string()),
        player_controllable: None,
        iddle_animation: Some("breathe".to_string()),
        walk_animation: Some("march".to_string()),
        run_animation: Some("sprint".to_string()),
        jump_animation: Some("leap".to_string()),
        reload_animation: None,
        shoot_animation: None,
        fps_camera_location: None,
        third_person_camera_location: None,
        initial_rotation_y: None,
        initial_rotation_x: None,
        initial_rotation_z: None,
        initial_transform: None,
        walk_speed: None,
        run_speed: None,
        collider: None,
        mass: None,
        friction: None,
        physics: None,
        automatic_collision_mesh: None,
        weapons: vec![melee_weapon()],
        death_sound_effect: None,
    };
    orkkypely::templates::apply_template(&mut ge, &template);
    assert_eq!(ge.asset, Some("soldier.glb".to_string()));
    assert_eq!(ge.idle_animation, Some("breathe".to_string()));
    assert_eq!(ge.walk_animation, Some("march".to_string()));
    assert_eq!(ge.run_animation, Some("sprint".to_string()));
    assert_eq!(ge.reload_animation, None);
    assert_eq!(ge.shoot_animation, None);
    // the template's jump animation is not handed over
    assert_eq!(ge.jump_animation, None);
    assert_eq!(ge.weapons, vec![melee_weapon()]);
    assert_eq!(ge.entity_id, "e1");
}
