//! The declarative map (level description) model: entities, templates,
//! shapes, lights, ambient light and camera, together with the change
//! events that the hot-reload diff emits.
//!
//! Real-valued quantities (positions, speeds, masses) are carried as
//! opaque 32-bit scalars: the map logic only stores and compares them,
//! the engine front end interprets them.
use vstd::prelude::*;

verus! {

/// A real-valued quantity as its raw 32-bit encoding. The map logic
/// never computes with it; it only stores it and compares it bitwise.
#[derive(Clone, Copy, Debug, PartialEq, Eq, Hash, Structural)]
pub struct Scalar(pub u32);

/// Three scalars, used for positions, rotations and sizes.
#[derive(Clone, Copy, Debug, PartialEq, Eq, Hash, Structural)]
pub struct ScalarTriple {
    pub x: Scalar,
    pub y: Scalar,
    pub z: Scalar,
}

/// Two scalars, used for planar sizes.
#[derive(Clone, Copy, Debug, PartialEq, Eq, Hash, Structural)]
pub struct ScalarPair {
    pub x: Scalar,
    pub y: Scalar,
}

impl DeepView for Scalar {
    type V = Scalar;

    open spec fn deep_view(&self) -> Scalar {
        *self
    }
}

impl DeepView for ScalarTriple {
    type V = ScalarTriple;

    open spec fn deep_view(&self) -> ScalarTriple {
        *self
    }
}

impl DeepView for ScalarPair {
    type V = ScalarPair;

    open spec fn deep_view(&self) -> ScalarPair {
        *self
    }
}

/// Collider shape a template may ask the physics engine for.
#[derive(Clone, Copy, Debug, PartialEq, Eq, Structural)]
pub enum MapEntityCollider {
    AABB,
    Capsule { a: Scalar, b: Scalar, radius: Scalar },
    Cuboid { x: Scalar, y: Scalar, z: Scalar },
}

impl DeepView for MapEntityCollider {
    type V = MapEntityCollider;

    open spec fn deep_view(&self) -> MapEntityCollider {
        *self
    }
}

#[derive(Clone, Copy, Debug, PartialEq, Eq, Structural)]
pub enum WeaponType {
    Melee,
    Ranged,
}

impl DeepView for WeaponType {
    type V = WeaponType;

    open spec fn deep_view(&self) -> WeaponType {
        *self
    }
}

#[derive(Debug, PartialEq)]
pub struct Weapon {
    pub weapon_type: WeaponType,
    pub animation: Option<String>,
    pub damage: Option<Scalar>,
    pub range: Option<Scalar>,
    pub duration: Option<Scalar>,
    pub ammo: Option<usize>,
}

pub ghost struct WeaponView {
    pub weapon_type: WeaponType,
    pub animation: Option<Seq<char>>,
    pub damage: Option<Scalar>,
    pub range: Option<Scalar>,
    pub duration: Option<Scalar>,
    pub ammo: Option<usize>,
}

impl DeepView for Weapon {
    type V = WeaponView;

    open spec fn deep_view(&self) -> WeaponView {
        WeaponView {
            weapon_type: self.weapon_type,
            animation: self.animation.deep_view(),
            damage: self.damage,
            range: self.range,
            duration: self.duration,
            ammo: self.ammo,
        }
    }
}

/// One entity placed on the map, referring to a template by name.
#[derive(Debug, PartialEq)]
pub struct MapEntity {
    pub entity_id: String,
    pub template: String,
    pub initial_position: Option<ScalarTriple>,
    pub initial_rotation: Option<ScalarTriple>,
    pub scale: Option<Scalar>,
    pub player: Option<bool>,
    pub npc: Option<bool>,
    pub move_cycle: Option<Vec<ScalarTriple>>,
    pub max_health: Option<Scalar>,
}

pub ghost struct MapEntityView {
    pub entity_id: Seq<char>,
    pub template: Seq<char>,
    pub initial_position: Option<ScalarTriple>,
    pub initial_rotation: Option<ScalarTriple>,
    pub scale: Option<Scalar>,
    pub player: Option<bool>,
    pub npc: Option<bool>,
    pub move_cycle: Option<Seq<ScalarTriple>>,
    pub max_health: Option<Scalar>,
}

impl DeepView for MapEntity {
    type V = MapEntityView;

    open spec fn deep_view(&self) -> MapEntityView {
        MapEntityView {
            entity_id: self.entity_id.deep_view(),
            template: self.template.deep_view(),
            initial_position: self.initial_position,
            initial_rotation: self.initial_rotation,
            scale: self.scale,
            player: self.player,
            npc: self.npc,
            move_cycle: self.move_cycle.deep_view(),
            max_health: self.max_health,
        }
    }
}

/// How an entity is simulated by the physics engine.
#[derive(Clone, Copy, Debug, PartialEq, Eq, Structural)]
pub enum MapEntityPhysics {
    Static,
    Dynamic,
    Kinematic,
}

impl DeepView for MapEntityPhysics {
    type V = MapEntityPhysics;

    open spec fn deep_view(&self) -> MapEntityPhysics {
        *self
    }
}

impl Default for MapEntityPhysics {
    /// The physics mode a template gets when it names none.
    fn default() -> (r: Self)
        ensures
            r == MapEntityPhysics::Static,
    {
        MapEntityPhysics::Static
    }
}

/// A named template: the asset, animations, collider and physics
/// settings shared by every entity that refers to it.
#[derive(Debug, PartialEq)]
pub struct MapTemplate {
    pub name: String,
    pub asset: Option<String>,
    pub player_controllable: Option<bool>,
    pub iddle_animation: Option<String>,
    pub walk_animation: Option<String>,
    pub run_animation: Option<String>,
    pub jump_animation: Option<String>,
    pub reload_animation: Option<String>,
    pub shoot_animation: Option<String>,
    pub fps_camera_location: Option<ScalarTriple>,
    pub third_person_camera_location: Option<ScalarTriple>,
    pub initial_rotation_y: Option<Scalar>,
    pub initial_rotation_x: Option<Scalar>,
    pub initial_rotation_z: Option<Scalar>,
    pub initial_transform: Option<ScalarTriple>,
    pub walk_speed: Option<Scalar>,
    pub run_speed: Option<Scalar>,
    pub collider: Option<MapEntityCollider>,
    pub mass: Option<Scalar>,
    pub friction: Option<Scalar>,
    pub physics: Option<MapEntityPhysics>,
    pub automatic_collision_mesh: Option<bool>,
    pub weapons: Vec<Weapon>,
    pub death_sound_effect: Option<String>,
}

pub ghost struct MapTemplateView {
    pub name: Seq<char>,
    pub asset: Option<Seq<char>>,
    pub player_controllable: Option<bool>,
    pub iddle_animation: Option<Seq<char>>,
    pub walk_animation: Option<Seq<char>>,
    pub run_animation: Option<Seq<char>>,
    pub jump_animation: Option<Seq<char>>,
    pub reload_animation: Option<Seq<char>>,
    pub shoot_animation: Option<Seq<char>>,
    pub fps_camera_location: Option<ScalarTriple>,
    pub third_person_camera_location: Option<ScalarTriple>,
    pub initial_rotation_y: Option<Scalar>,
    pub initial_rotation_x: Option<Scalar>,
    pub initial_rotation_z: Option<Scalar>,
    pub initial_transform: Option<ScalarTriple>,
    pub walk_speed: Option<Scalar>,
    pub run_speed: Option<Scalar>,
    pub collider: Option<MapEntityCollider>,
    pub mass: Option<Scalar>,
    pub friction: Option<Scalar>,
    pub physics: Option<MapEntityPhysics>,
    pub automatic_collision_mesh: Option<bool>,
    pub weapons: Seq<WeaponView>,
    pub death_sound_effect: Option<Seq<char>>,
}

impl DeepView for MapTemplate {
    type V = MapTemplateView;

    open spec fn deep_view(&self) -> MapTemplateView {
        MapTemplateView {
            name: self.name.deep_view(),
            asset: self.asset.deep_view(),
            player_controllable: self.player_controllable,
            iddle_animation: self.iddle_animation.deep_view(),
            walk_animation: self.walk_animation.deep_view(),
            run_animation: self.run_animation.deep_view(),
            jump_animation: self.jump_animation.deep_view(),
            reload_animation: self.reload_animation.deep_view(),
            shoot_animation: self.shoot_animation.deep_view(),
            fps_camera_location: self.fps_camera_location,
            third_person_camera_location: self.third_person_camera_location,
            initial_rotation_y: self.initial_rotation_y,
            initial_rotation_x: self.initial_rotation_x,
            initial_rotation_z: self.initial_rotation_z,
            initial_transform: self.initial_transform,
            walk_speed: self.walk_speed,
            run_speed: self.run_speed,
            collider: self.collider,
            mass: self.mass,
            friction: self.friction,
            physics: self.physics,
            automatic_collision_mesh: self.automatic_collision_mesh,
            weapons: self.weapons.deep_view(),
            death_sound_effect: self.death_sound_effect.deep_view(),
        }
    }
}

#[derive(Clone, Copy, Debug, PartialEq, Eq, Structural)]
pub struct MapCube {
    pub size: Scalar,
}

impl DeepView for MapCube {
    type V = MapCube;

    open spec fn deep_view(&self) -> MapCube {
        *self
    }
}

#[derive(Debug, PartialEq)]
pub struct MapPlane {
    pub size: Scalar,
    pub material: Option<String>,
    pub location: Option<ScalarTriple>,
}

pub ghost struct MapPlaneView {
    pub size: Scalar,
    pub material: Option<Seq<char>>,
    pub location: Option<ScalarTriple>,
}

impl DeepView for MapPlane {
    type V = MapPlaneView;

    open spec fn deep_view(&self) -> MapPlaneView {
        MapPlaneView {
            size: self.size,
            material: self.material.deep_view(),
            location: self.location,
        }
    }
}

#[derive(Clone, Copy, Debug, PartialEq, Eq, Structural)]
pub struct MapQuad {
    pub size: ScalarPair,
}

impl DeepView for MapQuad {
    type V = MapQuad;

    open spec fn deep_view(&self) -> MapQuad {
        *self
    }
}

#[derive(Clone, Copy, Debug, PartialEq, Eq, Structural)]
pub struct MapCircle {
    pub radius: Scalar,
    pub vertices: Option<usize>,
}

impl DeepView for MapCircle {
    type V = MapCircle;

    open spec fn deep_view(&self) -> MapCircle {
        *self
    }
}

#[derive(Clone, Copy, Debug, PartialEq, Eq, Structural)]
pub struct MapBox {
    pub min_x: Scalar,
    pub max_x: Scalar,
    pub min_y: Scalar,
    pub max_y: Scalar,
    pub min_z: Scalar,
    pub max_z: Scalar,
    pub collider: Option<bool>,
}

impl DeepView for MapBox {
    type V = MapBox;

    open spec fn deep_view(&self) -> MapBox {
        *self
    }
}

#[derive(Debug, PartialEq)]
pub enum MapShapeType {
    Cube(MapCube),
    Plane(MapPlane),
    Quad(MapQuad),
    Circle(MapCircle),
    Box(MapBox),
}

pub ghost enum MapShapeTypeView {
    Cube(MapCube),
    Plane(MapPlaneView),
    Quad(MapQuad),
    Circle(MapCircle),
    Box(MapBox),
}

impl DeepView for MapShapeType {
    type V = MapShapeTypeView;

    open spec fn deep_view(&self) -> MapShapeTypeView {
        match *self {
            MapShapeType::Cube(c) => MapShapeTypeView::Cube(c),
            MapShapeType::Plane(p) => MapShapeTypeView::Plane(p.deep_view()),
            MapShapeType::Quad(q) => MapShapeTypeView::Quad(q),
            MapShapeType::Circle(c) => MapShapeTypeView::Circle(c),
            MapShapeType::Box(b) => MapShapeTypeView::Box(b),
        }
    }
}

/// A primitive shape placed on the map, addressed by its id.
#[derive(Debug, PartialEq)]
pub struct MapShape {
    pub id: String,
    pub shape: MapShapeType,
}

pub ghost struct MapShapeView {
    pub id: Seq<char>,
    pub shape: MapShapeTypeView,
}

impl DeepView for MapShape {
    type V = MapShapeView;

    open spec fn deep_view(&self) -> MapShapeView {
        MapShapeView { id: self.id.deep_view(), shape: self.shape.deep_view() }
    }
}

#[derive(Debug, PartialEq)]
pub struct PointMapLight {
    pub color: String,
    pub intensity: Option<Scalar>,
    pub range: Option<Scalar>,
    pub radius: Option<Scalar>,
    pub shadows_enabled: Option<bool>,
    pub location: Option<ScalarTriple>,
}

pub ghost struct PointMapLightView {
    pub color: Seq<char>,
    pub intensity: Option<Scalar>,
    pub range: Option<Scalar>,
    pub radius: Option<Scalar>,
    pub shadows_enabled: Option<bool>,
    pub location: Option<ScalarTriple>,
}

impl DeepView for PointMapLight {
    type V = PointMapLightView;

    open spec fn deep_view(&self) -> PointMapLightView {
        PointMapLightView {
            color: self.color.deep_view(),
            intensity: self.intensity,
            range: self.range,
            radius: self.radius,
            shadows_enabled: self.shadows_enabled,
            location: self.location,
        }
    }
}

#[derive(Debug, PartialEq)]
pub enum LightType {
    Point(PointMapLight),
}

pub ghost enum LightTypeView {
    Point(PointMapLightView),
}

impl DeepView for LightType {
    type V = LightTypeView;

    open spec fn deep_view(&self) -> LightTypeView {
        match *self {
            LightType::Point(ref p) => LightTypeView::Point(p.deep_view()),
        }
    }
}

/// A light source placed on the map, addressed by its id.
#[derive(Debug, PartialEq)]
pub struct Light {
    pub id: String,
    pub light_type: LightType,
}

pub ghost struct LightView {
    pub id: Seq<char>,
    pub light_type: LightTypeView,
}

impl DeepView for Light {
    type V = LightView;

    open spec fn deep_view(&self) -> LightView {
        LightView { id: self.id.deep_view(), light_type: self.light_type.deep_view() }
    }
}

#[derive(Debug, PartialEq)]
pub struct AmbientLight {
    pub color: String,
    pub brightness: Scalar,
}

pub ghost struct AmbientLightView {
    pub color: Seq<char>,
    pub brightness: Scalar,
}

impl DeepView for AmbientLight {
    type V = AmbientLightView;

    open spec fn deep_view(&self) -> AmbientLightView {
        AmbientLightView { color: self.color.deep_view(), brightness: self.brightness }
    }
}

#[derive(Clone, Copy, Debug, PartialEq, Eq, Structural)]
pub enum CameraType {
    FPS,
    ThirdPerson,
}

impl DeepView for CameraType {
    type V = CameraType;

    open spec fn deep_view(&self) -> CameraType {
        *self
    }
}

/// The camera the map asks for, attached to an entity by id.
#[derive(Debug, PartialEq)]
pub struct MapCamera {
    pub camera_type: Option<CameraType>,
    pub entity_id: String,
}

pub ghost struct MapCameraView {
    pub camera_type: Option<CameraType>,
    pub entity_id: Seq<char>,
}

impl DeepView for MapCamera {
    type V = MapCameraView;

    open spec fn deep_view(&self) -> MapCameraView {
        MapCameraView { camera_type: self.camera_type, entity_id: self.entity_id.deep_view() }
    }
}

/// A whole parsed map. Every section is optional: a section that is
/// absent from the file stays `None`.
#[derive(Debug, PartialEq)]
pub struct GameMap {
    pub entities: Option<Vec<MapEntity>>,
    pub templates: Option<Vec<MapTemplate>>,
    pub shapes: Option<Vec<MapShape>>,
    pub lights: Option<Vec<Light>>,
    pub ambient_light: Option<AmbientLight>,
    pub camera: Option<MapCamera>,
}

pub ghost struct GameMapView {
    pub entities: Option<Seq<MapEntityView>>,
    pub templates: Option<Seq<MapTemplateView>>,
    pub shapes: Option<Seq<MapShapeView>>,
    pub lights: Option<Seq<LightView>>,
    pub ambient_light: Option<AmbientLightView>,
    pub camera: Option<MapCameraView>,
}

impl DeepView for GameMap {
    type V = GameMapView;

    open spec fn deep_view(&self) -> GameMapView {
        GameMapView {
            entities: self.entities.deep_view(),
            templates: self.templates.deep_view(),
            shapes: self.shapes.deep_view(),
            lights: self.lights.deep_view(),
            ambient_light: self.ambient_light.deep_view(),
            camera: self.camera.deep_view(),
        }
    }
}

impl GameMap {
    /// The empty map: no section present. A fresh watcher diffs the
    /// first loaded file against this.
    pub fn new() -> (r: GameMap)
        ensures
            r.deep_view() == (GameMapView {
                entities: None::<Seq<MapEntityView>>,
                templates: None::<Seq<MapTemplateView>>,
                shapes: None::<Seq<MapShapeView>>,
                lights: None::<Seq<LightView>>,
                ambient_light: None::<AmbientLightView>,
                camera: None::<MapCameraView>,
            }),
    {
        GameMap {
            entities: None,
            templates: None,
            shapes: None,
            lights: None,
            ambient_light: None,
            camera: None,
        }
    }
}

/// One change between two consecutive loads of the map file.
#[derive(Debug, PartialEq)]
pub enum MapChange {
    NewMapEntity(MapEntity),
    UpdateMapEntity(MapEntity),
    RemoveMapEntity(String),
    NewMapTemplate(MapTemplate),
    UpdateMaptemplate(MapTemplate),
    RemoveMapTemplate(String),
    NewMapShape(MapShape),
    UpdateMapShape(MapShape),
    RemoveMapShape(String),
    NewLight(Light),
    UpdateLight(Light),
    RemoveLight(String),
    NewAmbientLight(AmbientLight),
    UpdateAmbientLight(AmbientLight),
    RemoveAmbientLight,
    NewCamera(MapCamera),
    UpdateCamera(MapCamera),
    RemoveCamera,
}

pub ghost enum MapChangeView {
    NewMapEntity(MapEntityView),
    UpdateMapEntity(MapEntityView),
    RemoveMapEntity(Seq<char>),
    NewMapTemplate(MapTemplateView),
    UpdateMaptemplate(MapTemplateView),
    RemoveMapTemplate(Seq<char>),
    NewMapShape(MapShapeView),
    UpdateMapShape(MapShapeView),
    RemoveMapShape(Seq<char>),
    NewLight(LightView),
    UpdateLight(LightView),
    RemoveLight(Seq<char>),
    NewAmbientLight(AmbientLightView),
    UpdateAmbientLight(AmbientLightView),
    RemoveAmbientLight,
    NewCamera(MapCameraView),
    UpdateCamera(MapCameraView),
    RemoveCamera,
}

impl DeepView for MapChange {
    type V = MapChangeView;

    open spec fn deep_view(&self) -> MapChangeView {
        match *self {
            MapChange::NewMapEntity(ref e) => MapChangeView::NewMapEntity(e.deep_view()),
            MapChange::UpdateMapEntity(ref e) => MapChangeView::UpdateMapEntity(e.deep_view()),
            MapChange::RemoveMapEntity(ref id) => MapChangeView::RemoveMapEntity(id.deep_view()),
            MapChange::NewMapTemplate(ref t) => MapChangeView::NewMapTemplate(t.deep_view()),
            MapChange::UpdateMaptemplate(ref t) => MapChangeView::UpdateMaptemplate(t.deep_view()),
            MapChange::RemoveMapTemplate(ref n) => MapChangeView::RemoveMapTemplate(n.deep_view()),
            MapChange::NewMapShape(ref s) => MapChangeView::NewMapShape(s.deep_view()),
            MapChange::UpdateMapShape(ref s) => MapChangeView::UpdateMapShape(s.deep_view()),
            MapChange::RemoveMapShape(ref id) => MapChangeView::RemoveMapShape(id.deep_view()),
            MapChange::NewLight(ref l) => MapChangeView::NewLight(l.deep_view()),
            MapChange::UpdateLight(ref l) => MapChangeView::UpdateLight(l.deep_view()),
            MapChange::RemoveLight(ref id) => MapChangeView::RemoveLight(id.deep_view()),
            MapChange::NewAmbientLight(ref a) => MapChangeView::NewAmbientLight(a.deep_view()),
            MapChange::UpdateAmbientLight(ref a) => MapChangeView::UpdateAmbientLight(
                a.deep_view(),
            ),
            MapChange::RemoveAmbientLight => MapChangeView::RemoveAmbientLight,
            MapChange::NewCamera(ref c) => MapChangeView::NewCamera(c.deep_view()),
            MapChange::UpdateCamera(ref c) => MapChangeView::UpdateCamera(c.deep_view()),
            MapChange::RemoveCamera => MapChangeView::RemoveCamera,
        }
    }
}

/// The change events collected from one reload, in the order the diff
/// walks the map: entities, templates, shapes, lights, ambient light,
/// camera.
#[derive(Debug, PartialEq)]
pub struct MapChanges {
    pub changes: Vec<MapChange>,
}

impl MapChanges {
    /// An empty collection of changes.
    pub fn new() -> (r: MapChanges)
        ensures
            r.changes.deep_view() == (Seq::<MapChangeView>::empty()),
    {
        MapChanges { changes: Vec::new() }
    }
}

// Deep (content) equality. The diff compares entries of two parsed
// maps by value: strings by their characters, scalars bitwise. Each
// function decides equality of the deep views.
fn eq_opt_string(a: &Option<String>, b: &Option<String>) -> (r: bool)
    ensures
        r == (a.deep_view() == b.deep_view()),
{
    match (a, b) {
        (Some(x), Some(y)) => x.eq(y),
        (None, None) => true,
        _ => false,
    }
}

fn eq_opt_scalar(a: &Option<Scalar>, b: &Option<Scalar>) -> (r: bool)
    ensures
        r == (*a == *b),
{
    match (a, b) {
        (Some(x), Some(y)) => x == y,
        (None, None) => true,
        _ => false,
    }
}

fn eq_opt_triple(a: &Option<ScalarTriple>, b: &Option<ScalarTriple>) -> (r: bool)
    ensures
        r == (*a == *b),
{
    match (a, b) {
        (Some(x), Some(y)) => x == y,
        (None, None) => true,
        _ => false,
    }
}

fn eq_opt_bool(a: &Option<bool>, b: &Option<bool>) -> (r: bool)
    ensures
        r == (*a == *b),
{
    match (a, b) {
        (Some(x), Some(y)) => x == y,
        (None, None) => true,
        _ => false,
    }
}

fn eq_opt_usize(a: &Option<usize>, b: &Option<usize>) -> (r: bool)
    ensures
        r == (*a == *b),
{
    match (a, b) {
        (Some(x), Some(y)) => x == y,
        (None, None) => true,
        _ => false,
    }
}

fn eq_opt_collider(a: &Option<MapEntityCollider>, b: &Option<MapEntityCollider>) -> (r: bool)
    ensures
        r == (*a == *b),
{
    match (a, b) {
        (Some(x), Some(y)) => x == y,
        (None, None) => true,
        _ => false,
    }
}

fn eq_opt_physics(a: &Option<MapEntityPhysics>, b: &Option<MapEntityPhysics>) -> (r: bool)
    ensures
        r == (*a == *b),
{
    match (a, b) {
        (Some(x), Some(y)) => x == y,
        (None, None) => true,
        _ => false,
    }
}

fn eq_opt_camera_type(a: &Option<CameraType>, b: &Option<CameraType>) -> (r: bool)
    ensures
        r == (*a == *b),
{
    match (a, b) {
        (Some(x), Some(y)) => x == y,
        (None, None) => true,
        _ => false,
    }
}

fn eq_opt_cycle(a: &Option<Vec<ScalarTriple>>, b: &Option<Vec<ScalarTriple>>) -> (r: bool)
    ensures
        r == (a.deep_view() == b.deep_view()),
{
    match (a, b) {
        (Some(x), Some(y)) => {
            if x.len() != y.len() {
                assert(x.deep_view().len() != y.deep_view().len());
                return false;
            }
            let n = x.len();
            let mut i: usize = 0;
            while i < n
                invariant
                    n == x.len() == y.len(),
                    i <= n,
                    a.deep_view() == Some(x.deep_view()),
                    b.deep_view() == Some(y.deep_view()),
                    forall|k: int| 0 <= k < i ==> x@[k] == y@[k],
                decreases n - i,
            {
                if x[i] != y[i] {
                    assert(x.deep_view()[i as int] != y.deep_view()[i as int]);
                    return false;
                }
                i += 1;
            }
            proof {
                assert(x.deep_view() =~= y.deep_view());
            }
            true
        },
        (None, None) => true,
        _ => false,
    }
}

/// Whether two weapons agree in every field.
pub fn eq_weapon(a: &Weapon, b: &Weapon) -> (r: bool)
    ensures
        r == (a.deep_view() == b.deep_view()),
{
    let r = a.weapon_type == b.weapon_type && eq_opt_string(&a.animation, &b.animation)
        && eq_opt_scalar(&a.damage, &b.damage) && eq_opt_scalar(&a.range, &b.range)
        && eq_opt_scalar(&a.duration, &b.duration) && eq_opt_usize(&a.ammo, &b.ammo);
    r
}

fn eq_weapons(a: &Vec<Weapon>, b: &Vec<Weapon>) -> (r: bool)
    ensures
        r == (a.deep_view() == b.deep_view()),
{
    if a.len() != b.len() {
        assert(a.deep_view().len() != b.deep_view().len());
        return false;
    }
    let n = a.len();
    let mut i: usize = 0;
    while i < n
        invariant
            n == a.len() == b.len(),
            i <= n,
            forall|k: int| 0 <= k < i ==> a@[k].deep_view() == b@[k].deep_view(),
        decreases n - i,
    {
        if !eq_weapon(&a[i], &b[i]) {
            assert(a.deep_view()[i as int] != b.deep_view()[i as int]);
            return false;
        }
        i += 1;
    }
    proof {
        assert(a.deep_view() =~= b.deep_view());
    }
    true
}

/// Whether two map entities agree in every field, the id included.
pub fn eq_map_entity(a: &MapEntity, b: &MapEntity) -> (r: bool)
    ensures
        r == (a.deep_view() == b.deep_view()),
{
    let r = a.entity_id == b.entity_id && a.template == b.template
        && eq_opt_triple(&a.initial_position, &b.initial_position)
        && eq_opt_triple(&a.initial_rotation, &b.initial_rotation)
        && eq_opt_scalar(&a.scale, &b.scale) && eq_opt_bool(&a.player, &b.player)
        && eq_opt_bool(&a.npc, &b.npc) && eq_opt_cycle(&a.move_cycle, &b.move_cycle)
        && eq_opt_scalar(&a.max_health, &b.max_health);
    r
}

/// Whether two templates agree in every field, the name included.
pub fn eq_map_template(a: &MapTemplate, b: &MapTemplate) -> (r: bool)
    ensures
        r == (a.deep_view() == b.deep_view()),
{
    let r = a.name == b.name && eq_opt_string(&a.asset, &b.asset)
        && eq_opt_bool(&a.player_controllable, &b.player_controllable)
        && eq_opt_string(&a.iddle_animation, &b.iddle_animation)
        && eq_opt_string(&a.walk_animation, &b.walk_animation)
        && eq_opt_string(&a.run_animation, &b.run_animation)
        && eq_opt_string(&a.jump_animation, &b.jump_animation)
        && eq_opt_string(&a.reload_animation, &b.reload_animation)
        && eq_opt_string(&a.shoot_animation, &b.shoot_animation)
        && eq_opt_triple(&a.fps_camera_location, &b.fps_camera_location)
        && eq_opt_triple(&a.third_person_camera_location, &b.third_person_camera_location)
        && eq_opt_scalar(&a.initial_rotation_y, &b.initial_rotation_y)
        && eq_opt_scalar(&a.initial_rotation_x, &b.initial_rotation_x)
        && eq_opt_scalar(&a.initial_rotation_z, &b.initial_rotation_z)
        && eq_opt_triple(&a.initial_transform, &b.initial_transform)
        && eq_opt_scalar(&a.walk_speed, &b.walk_speed)
        && eq_opt_scalar(&a.run_speed, &b.run_speed) && eq_opt_collider(&a.collider, &b.collider)
        && eq_opt_scalar(&a.mass, &b.mass) && eq_opt_scalar(&a.friction, &b.friction)
        && eq_opt_physics(&a.physics, &b.physics)
        && eq_opt_bool(&a.automatic_collision_mesh, &b.automatic_collision_mesh)
        && eq_weapons(&a.weapons, &b.weapons)
        && eq_opt_string(&a.death_sound_effect, &b.death_sound_effect);
    r
}

/// Whether two shapes agree in kind, in every measure and in the id.
pub fn eq_map_shape(a: &MapShape, b: &MapShape) -> (r: bool)
    ensures
        r == (a.deep_view() == b.deep_view()),
{
    let kinds = match (&a.shape, &b.shape) {
        (MapShapeType::Cube(x), MapShapeType::Cube(y)) => x == y,
        (MapShapeType::Plane(x), MapShapeType::Plane(y)) => {
            x.size == y.size && eq_opt_string(&x.material, &y.material) && eq_opt_triple(
                &x.location,
                &y.location,
            )
        },
        (MapShapeType::Quad(x), MapShapeType::Quad(y)) => x == y,
        (MapShapeType::Circle(x), MapShapeType::Circle(y)) => x == y,
        (MapShapeType::Box(x), MapShapeType::Box(y)) => x == y,
        _ => false,
    };
    a.id == b.id && kinds
}

/// Whether two lights agree in every field, the id included.
pub fn eq_light(a: &Light, b: &Light) -> (r: bool)
    ensures
        r == (a.deep_view() == b.deep_view()),
{
    let kinds = match (&a.light_type, &b.light_type) {
        (LightType::Point(x), LightType::Point(y)) => {
            x.color == y.color && eq_opt_scalar(&x.intensity, &y.intensity) && eq_opt_scalar(
                &x.range,
                &y.range,
            ) && eq_opt_scalar(&x.radius, &y.radius) && eq_opt_bool(
                &x.shadows_enabled,
                &y.shadows_enabled,
            ) && eq_opt_triple(&x.location, &y.location)
        },
    };
    a.id == b.id && kinds
}

/// Whether two ambient lights agree in colour and brightness.
pub fn eq_ambient_light(a: &AmbientLight, b: &AmbientLight) -> (r: bool)
    ensures
        r == (a.deep_view() == b.deep_view()),
{
    a.color == b.color && a.brightness == b.brightness
}

/// Whether two camera requests agree in kind and entity.
pub fn eq_map_camera(a: &MapCamera, b: &MapCamera) -> (r: bool)
    ensures
        r == (a.deep_view() == b.deep_view()),
{
    eq_opt_camera_type(&a.camera_type, &b.camera_type) && a.entity_id == b.entity_id
}

pub(crate) fn clone_opt_string(a: &Option<String>) -> (r: Option<String>)
    ensures
        r.deep_view() == a.deep_view(),
{
    match a {
        Some(s) => Some(s.clone()),
        None => None,
    }
}

fn clone_triples(a: &Vec<ScalarTriple>) -> (r: Vec<ScalarTriple>)
    ensures
        r.deep_view() == a.deep_view(),
{
    let mut out: Vec<ScalarTriple> = Vec::new();
    let n = a.len();
    let mut i: usize = 0;
    while i < n
        invariant
            n == a.len(),
            i <= n,
            out@.len() == i,
            forall|k: int| 0 <= k < i ==> out@[k] == a@[k],
        decreases n - i,
    {
        out.push(a[i]);
        i += 1;
    }
    proof {
        assert(out.deep_view() =~= a.deep_view());
    }
    out
}

impl Clone for Weapon {
    /// A copy that agrees with the original in every field.
    fn clone(&self) -> (r: Self)
        ensures
            r.deep_view() == self.deep_view(),
    {
        Weapon {
            weapon_type: self.weapon_type,
            animation: clone_opt_string(&self.animation),
            damage: self.damage,
            range: self.range,
            duration: self.duration,
            ammo: self.ammo,
        }
    }
}

pub(crate) fn clone_weapons(a: &Vec<Weapon>) -> (r: Vec<Weapon>)
    ensures
        r.deep_view() == a.deep_view(),
{
    let mut out: Vec<Weapon> = Vec::new();
    let n = a.len();
    let mut i: usize = 0;
    while i < n
        invariant
            n == a.len(),
            i <= n,
            out@.len() == i,
            forall|k: int| 0 <= k < i ==> out@[k].deep_view() == a@[k].deep_view(),
        decreases n - i,
    {
        out.push(a[i].clone());
        i += 1;
    }
    proof {
        assert(out.deep_view() =~= a.deep_view());
    }
    out
}

impl Clone for MapEntity {
    /// A copy that agrees with the original in every field.
    fn clone(&self) -> (r: Self)
        ensures
            r.deep_view() == self.deep_view(),
    {
        MapEntity {
            entity_id: self.entity_id.clone(),
            template: self.template.clone(),
            initial_position: self.initial_position,
            initial_rotation: self.initial_rotation,
            scale: self.scale,
            player: self.player,
            npc: self.npc,
            move_cycle: match &self.move_cycle {
                Some(c) => Some(clone_triples(c)),
                None => None,
            },
            max_health: self.max_health,
        }
    }
}

impl Clone for MapTemplate {
    /// A copy that agrees with the original in every field.
    fn clone(&self) -> (r: Self)
        ensures
            r.deep_view() == self.deep_view(),
    {
        MapTemplate {
            name: self.name.clone(),
            asset: clone_opt_string(&self.asset),
            player_controllable: self.player_controllable,
            iddle_animation: clone_opt_string(&self.iddle_animation),
            walk_animation: clone_opt_string(&self.walk_animation),
            run_animation: clone_opt_string(&self.run_animation),
            jump_animation: clone_opt_string(&self.jump_animation),
            reload_animation: clone_opt_string(&self.reload_animation),
            shoot_animation: clone_opt_string(&self.shoot_animation),
            fps_camera_location: self.fps_camera_location,
            third_person_camera_location: self.third_person_camera_location,
            initial_rotation_y: self.initial_rotation_y,
            initial_rotation_x: self.initial_rotation_x,
            initial_rotation_z: self.initial_rotation_z,
            initial_transform: self.initial_transform,
            walk_speed: self.walk_speed,
            run_speed: self.run_speed,
            collider: self.collider,
            mass: self.mass,
            friction: self.friction,
            physics: self.physics,
            automatic_collision_mesh: self.automatic_collision_mesh,
            weapons: clone_weapons(&self.weapons),
            death_sound_effect: clone_opt_string(&self.death_sound_effect),
        }
    }
}

impl Clone for MapShape {
    /// A copy that agrees with the original in every field.
    fn clone(&self) -> (r: Self)
        ensures
            r.deep_view() == self.deep_view(),
    {
        MapShape {
            id: self.id.clone(),
            shape: match &self.shape {
                MapShapeType::Cube(c) => MapShapeType::Cube(*c),
                MapShapeType::Plane(p) => MapShapeType::Plane(
                    MapPlane {
                        size: p.size,
                        material: clone_opt_string(&p.material),
                        location: p.location,
                    },
                ),
                MapShapeType::Quad(q) => MapShapeType::Quad(*q),
                MapShapeType::Circle(c) => MapShapeType::Circle(*c),
                MapShapeType::Box(b) => MapShapeType::Box(*b),
            },
        }
    }
}

impl Clone for Light {
    /// A copy that agrees with the original in every field.
    fn clone(&self) -> (r: Self)
        ensures
            r.deep_view() == self.deep_view(),
    {
        Light {
            id: self.id.clone(),
            light_type: match &self.light_type {
                LightType::Point(p) => LightType::Point(
                    PointMapLight {
                        color: p.color.clone(),
                        intensity: p.intensity,
                        range: p.range,
                        radius: p.radius,
                        shadows_enabled: p.shadows_enabled,
                        location: p.location,
                    },
                ),
            },
        }
    }
}

impl Clone for AmbientLight {
    /// A copy that agrees with the original in every field.
    fn clone(&self) -> (r: Self)
        ensures
            r.deep_view() == self.deep_view(),
    {
        AmbientLight { color: self.color.clone(), brightness: self.brightness }
    }
}

impl Clone for MapCamera {
    /// A copy that agrees with the original in every field.
    fn clone(&self) -> (r: Self)
        ensures
            r.deep_view() == self.deep_view(),
    {
        MapCamera { camera_type: self.camera_type, entity_id: self.entity_id.clone() }
    }
}

} // verus!
