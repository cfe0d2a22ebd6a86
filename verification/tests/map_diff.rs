use orkkypely::map::AmbientLight;
use orkkypely::map::CameraType;
use orkkypely::map::GameMap;
use orkkypely::map::Light;
use orkkypely::map::LightType;
use orkkypely::map::MapCamera;
use orkkypely::map::MapChange;
use orkkypely::map::MapChanges;
use orkkypely::map::MapEntity;
use orkkypely::map::MapShape;
use orkkypely::map::MapShapeType;
use orkkypely::map::MapCube;
use orkkypely::map::MapTemplate;
use orkkypely::map::PointMapLight;
use orkkypely::map::Scalar;
use orkkypely::map::ScalarTriple;
use orkkypely::map::Weapon;
use orkkypely::map::WeaponType;
use orkkypely::map::eq_map_entity;
use orkkypely::map::eq_map_template;
use orkkypely::map_diff::decimal_string;
use orkkypely::map_diff::emit_changes;
use orkkypely::map_diff::try_emit_changes;

fn entity(id: &str, template: &str) -> MapEntity {
    MapEntity {
        entity_id: id.to_string(),
        template: template.to_string(),
        initial_position: None,
        initial_rotation: None,
        scale: None,
        player: None,
        npc: None,
        move_cycle: None,
        max_health: None,
    }
}

fn template(name: &str) -> MapTemplate {
    MapTemplate {
        name: name.to_string(),
        asset: None,
        player_controllable: None,
        iddle_animation: None,
        walk_animation: None,
        run_animation: None,
        jump_animation: None,
        reload_animation: None,
        shoot_animation: None,
        fps_camera_location: None,
        third_person_camera_location: None,
        initial_rotation_y: None,
        initial_rotation_x: None,
        initial_rotation_z: None,
        initial_transform: None,
        walk_speed: None,
        run_speed: None,
        collider: None,
        mass: None,
        friction: None,
        physics: None,
        automatic_collision_mesh: None,
        weapons: Vec::new(),
        death_sound_effect: None,
    }
}

fn shape(id: &str, size: u32) -> MapShape {
    MapShape {
        id: id.to_string(),
        shape: MapShapeType::Cube(MapCube { size: Scalar(size) }),
    }
}

fn light(id: &str, color: &str) -> Light {
    Light {
        id: id.to_string(),
        light_type: LightType::Point(PointMapLight {
            color: color.to_string(),
            intensity: None,
            range: None,
            radius: None,
            shadows_enabled: None,
            location: None,
        }),
    }
}

fn full_map() -> GameMap {
    GameMap {
        entities: Some(vec![entity("e1", "soldier")]),
        templates: Some(vec![template("soldier")]),
        shapes: Some(vec![shape("s1", 4)]),
        lights: Some(vec![light("l1", "#ffffff")]),
        ambient_light: Some(AmbientLight {
            color: "#101010".to_string(),
            brightness: Scalar(7),
        }),
        camera: Some(MapCamera {
            camera_type: Some(CameraType::FPS),
            entity_id: "e1".to_string(),
        }),
    }
}

#[test]
fn first_load_creates_everything() {
    let last = GameMap::new();
    let mut new = full_map();
    let changes = emit_changes(&last, &mut new);
    assert_eq!(
        changes,
        vec![
            MapChange::NewMapEntity(entity("e1", "soldier")),
            MapChange::NewMapTemplate(template("soldier")),
            MapChange::NewMapShape(shape("s1", 4)),
            MapChange::NewLight(light("l1", "#ffffff")),
            MapChange::NewAmbientLight(AmbientLight {
                color: "#101010".to_string(),
                brightness: Scalar(7),
            }),
            MapChange::NewCamera(MapCamera {
                camera_type: Some(CameraType::FPS),
                entity_id: "e1".to_string(),
            }),
        ]
    );
}

#[test]
fn unchanged_map_emits_nothing() {
    let last = full_map();
    let mut new = full_map();
    let changes = emit_changes(&last, &mut new);
    assert_eq!(changes, Vec::new());
}

#[test]
fn changed_entries_emit_updates() {
    let last = full_map();
    let mut new = full_map();
    if let Some(entities) = &mut new.entities {
        entities[0].scale = Some(Scalar(2));
    }
    if let Some(templates) = &mut new.templates {
        templates[0].walk_speed = Some(Scalar(3));
    }
    if let Some(ambient) = &mut new.ambient_light {
        ambient.brightness = Scalar(9);
    }
    let changes = emit_changes(&last, &mut new);

    let mut expected_entity = entity("e1", "soldier");
    expected_entity.scale = Some(Scalar(2));
    let mut expected_template = template("soldier");
    expected_template.walk_speed = Some(Scalar(3));
    assert_eq!(
        changes,
        vec![
            MapChange::UpdateMapEntity(expected_entity),
            MapChange::UpdateMaptemplate(expected_template),
            MapChange::UpdateAmbientLight(AmbientLight {
                color: "#101010".to_string(),
                brightness: Scalar(9),
            }),
        ]
    );
}

#[test]
fn missing_sections_emit_removals() {
    let last = full_map();
    let mut new = GameMap::new();
    let changes = try_emit_changes(&last, &mut new).unwrap();
    assert_eq!(
        changes,
        vec![
            MapChange::RemoveMapEntity("e1".to_string()),
            MapChange::RemoveMapTemplate("soldier".to_string()),
            MapChange::RemoveMapShape("s1".to_string()),
            MapChange::RemoveLight("l1".to_string()),
            MapChange::RemoveAmbientLight,
            MapChange::RemoveCamera,
        ]
    );
}

#[test]
fn blank_ids_get_fresh_numerals() {
    let last = full_map();
    let mut new = full_map();
    new.entities = Some(vec![entity("", "a"), entity("x", "b"), entity("", "c")]);
    let changes = emit_changes(&last, &mut new);

    let ids: Vec<String> = new
        .entities
        .as_ref()
        .unwrap()
        .iter()
        .map(|e| e.entity_id.clone())
        .collect();
    assert_eq!(ids, vec!["1".to_string(), "x".to_string(), "3".to_string()]);

    assert_eq!(
        changes,
        vec![
            MapChange::NewMapEntity(entity("1", "a")),
            MapChange::NewMapEntity(entity("x", "b")),
            MapChange::NewMapEntity(entity("3", "c")),
        ]
    );
}

#[test]
fn colliding_fresh_id_refuses_the_diff() {
    let last = full_map();
    let mut new = full_map();
    new.entities = Some(vec![entity("", "a"), entity("1", "b")]);
    let r = try_emit_changes(&last, &mut new);
    assert!(r.is_none());
    assert_eq!(new.entities.as_ref().unwrap()[0].entity_id, "");
}

#[test]
fn sections_missing_on_both_sides_refuse_the_diff() {
    let last = GameMap::new();
    let mut new = GameMap::new();
    let r = try_emit_changes(&last, &mut new);
    assert!(r.is_none());
}

#[test]
fn decimal_strings_spell_base_ten() {
    assert_eq!(decimal_string(0), "0");
    assert_eq!(decimal_string(7), "7");
    assert_eq!(decimal_string(10), "10");
    assert_eq!(decimal_string(907), "907");
    assert_eq!(decimal_string(1000), "1000");
}

#[test]
fn entity_equality_is_by_content() {
    let a = entity("e", "t");
    let b = entity("e", "t");
    assert!(eq_map_entity(&a, &b));
    let mut c = entity("e", "t");
    c.move_cycle = Some(vec![ScalarTriple {
        x: Scalar(1),
        y: Scalar(2),
        z: Scalar(3),
    }]);
    assert!(!eq_map_entity(&a, &c));
}

#[test]
fn template_equality_sees_weapons() {
    let a = template("t");
    let mut b = template("t");
    assert!(eq_map_template(&a, &b));
    b.weapons.push(Weapon {
        weapon_type: WeaponType::Melee,
        animation: Some("slash".to_string()),
        damage: None,
        range: None,
        duration: None,
        ammo: Some(3),
    });
    assert!(!eq_map_template(&a, &b));
}

#[test]
fn map_changes_start_empty() {
    let c = MapChanges::new();
    assert_eq!(c.changes.len(), 0);
}

#[test]
fn shape_and_light_updates_are_emitted() {
    let last = full_map();
    let mut new = full_map();
    if let Some(shapes) = &mut new.shapes {
        shapes[0].shape = MapShapeType::Cube(MapCube { size: Scalar(9) });
    }
    if let Some(lights) = &mut new.lights {
        lights[0] = light("l1", "#ff0000");
    }
    new.camera = Some(MapCamera {
        camera_type: Some(CameraType::ThirdPerson),
        entity_id: "e1".to_string(),
    });
    let changes = emit_changes(&last, &mut new);
    assert_eq!(
        changes,
        vec![
            MapChange::UpdateMapShape(shape("s1", 9)),
            MapChange::UpdateLight(light("l1", "#ff0000")),
            MapChange::UpdateCamera(MapCamera {
                camera_type: Some(CameraType::ThirdPerson),
                entity_id: "e1".to_string(),
            }),
        ]
    );
}

#[test]
fn blank_shape_and_light_ids_get_fresh_numerals() {
    let last = full_map();
    let mut new = full_map();
    new.shapes = Some(vec![shape("", 1), shape("", 2)]);
    new.lights = Some(vec![light("", "#00ff00")]);
    let changes = emit_changes(&last, &mut new);
    assert_eq!(new.shapes.as_ref().unwrap()[0].id, "1");
    assert_eq!(new.shapes.as_ref().unwrap()[1].id, "2");
    assert_eq!(new.lights.as_ref().unwrap()[0].id, "1");
    assert_eq!(
        changes,
        vec![
            MapChange::NewMapShape(shape("1", 1)),
            MapChange::NewMapShape(shape("2", 2)),
            MapChange::NewLight(light("1", "#00ff00")),
        ]
    );
}
