//! The hot-reload diff: comparing the previously loaded map against a
//! freshly parsed one and emitting one change event per created,
//! updated or removed entry.
//!
//! Entries of the entity, shape and light sections are addressed by a
//! string id. An entry whose id is blank is first given one: the
//! decimal numeral of its position plus one, provided that numeral is
//! not already taken by another entry. Entries of the template section
//! are addressed by their name and never renamed.
//!
//! A section that is present in the new map is walked in order: an
//! entry whose key is unknown to the old map becomes a creation, one
//! whose key is known but whose content differs becomes an update, an
//! unchanged one emits nothing. A section that is absent from the new
//! map emits one removal per entry of the old section. The ambient
//! light and the camera are single entries and follow the same rule.
use vstd::prelude::*;
use vstd::string::StringExecFns;

use crate::map::AmbientLightView;
use crate::map::GameMap;
use crate::map::Light;
use crate::map::MapChange;
use crate::map::MapEntity;
use crate::map::MapShape;
use crate::map::MapTemplate;
use crate::map::eq_ambient_light;
use crate::map::eq_light;
use crate::map::eq_map_camera;
use crate::map::eq_map_entity;
use crate::map::eq_map_shape;
use crate::map::eq_map_template;
use crate::map::GameMapView;
use crate::map::LightView;
use crate::map::MapCameraView;
use crate::map::MapChangeView;
use crate::map::MapEntityView;
use crate::map::MapShapeView;
use crate::map::MapTemplateView;

verus! {

/// The character of one decimal digit.
pub open spec fn dec_digit(d: nat) -> char {
    if d == 0 {
        '0'
    } else if d == 1 {
        '1'
    } else if d == 2 {
        '2'
    } else if d == 3 {
        '3'
    } else if d == 4 {
        '4'
    } else if d == 5 {
        '5'
    } else if d == 6 {
        '6'
    } else if d == 7 {
        '7'
    } else if d == 8 {
        '8'
    } else {
        '9'
    }
}

/// The decimal numeral of `n`, most significant digit first.
pub open spec fn dec_str(n: nat) -> Seq<char>
    decreases n,
{
    if n < 10 {
        seq![dec_digit(n)]
    } else {
        dec_str(n / 10).push(dec_digit(n % 10))
    }
}

// Entity section.
/// Whether some entity of `s` already carries the non-blank id `id`.
pub open spec fn entity_id_taken(s: Seq<MapEntityView>, id: Seq<char>) -> bool {
    exists|j: int| 0 <= j < s.len() && s[j].entity_id.len() > 0 && s[j].entity_id == id
}

/// The entity at position `i` after id assignment: a blank id becomes
/// the decimal numeral of `i + 1`.
pub open spec fn assigned_entity(s: Seq<MapEntityView>, i: int) -> MapEntityView {
    if s[i].entity_id.len() == 0 {
        MapEntityView { entity_id: dec_str((i + 1) as nat), ..s[i] }
    } else {
        s[i]
    }
}

/// The entity section after id assignment.
pub open spec fn assigned_entity_ids(s: Seq<MapEntityView>) -> Seq<MapEntityView> {
    Seq::new(s.len(), |i: int| assigned_entity(s, i))
}

/// Id assignment succeeds: no fresh numeral collides with an id that
/// an entity already carries.
pub open spec fn entity_ids_assignable(s: Seq<MapEntityView>) -> bool {
    forall|i: int|
        0 <= i < s.len() && s[i].entity_id.len() == 0 ==> !entity_id_taken(
            s,
            dec_str((i + 1) as nat),
        )
}

/// The first entity of `last` that carries `id`, if any.
pub open spec fn find_entity(last: Seq<MapEntityView>, id: Seq<char>) -> Option<MapEntityView>
    decreases last.len(),
{
    if last.len() == 0 {
        None
    } else if last[0].entity_id == id {
        Some(last[0])
    } else {
        find_entity(last.drop_first(), id)
    }
}

/// The changes one entity of the new section contributes: nothing if
/// the old section holds an equal entity under the same id, an update
/// if it holds a different one, a creation if it holds none.
pub open spec fn entity_change(last: Option<Seq<MapEntityView>>, e: MapEntityView) -> Seq<
    MapChangeView,
> {
    let prev = match last {
        Some(l) => find_entity(l, e.entity_id),
        None => None,
    };
    match prev {
        Some(p) => if p == e {
            seq![]
        } else {
            seq![MapChangeView::UpdateMapEntity(e)]
        },
        None => seq![MapChangeView::NewMapEntity(e)],
    }
}

/// The changes of the whole new entity section, in section order.
pub open spec fn entity_update_changes(
    last: Option<Seq<MapEntityView>>,
    new: Seq<MapEntityView>,
) -> Seq<MapChangeView>
    decreases new.len(),
{
    if new.len() == 0 {
        seq![]
    } else {
        entity_update_changes(last, new.drop_last()) + entity_change(last, new.last())
    }
}

/// One removal per entity of the old section, in section order.
pub open spec fn entity_removals(last: Seq<MapEntityView>) -> Seq<MapChangeView> {
    Seq::new(last.len(), |i: int| MapChangeView::RemoveMapEntity(last[i].entity_id))
}

/// What the entity section emits. When the new map has no entity
/// section, every old entity is removed; the diff is undefined when
/// the old map has none either.
pub open spec fn entity_section_changes(
    last: Option<Seq<MapEntityView>>,
    new: Option<Seq<MapEntityView>>,
) -> Seq<MapChangeView> {
    match new {
        Some(es) => entity_update_changes(last, assigned_entity_ids(es)),
        None => match last {
            Some(l) => entity_removals(l),
            None => seq![],
        },
    }
}

// Template section. Templates are addressed by name and no name is
// ever assigned.
/// The first template of `last` that carries `name`, if any.
pub open spec fn find_template(last: Seq<MapTemplateView>, name: Seq<char>) -> Option<
    MapTemplateView,
>
    decreases last.len(),
{
    if last.len() == 0 {
        None
    } else if last[0].name == name {
        Some(last[0])
    } else {
        find_template(last.drop_first(), name)
    }
}

/// The changes one template of the new section contributes.
pub open spec fn template_change(last: Option<Seq<MapTemplateView>>, t: MapTemplateView) -> Seq<
    MapChangeView,
> {
    let prev = match last {
        Some(l) => find_template(l, t.name),
        None => None,
    };
    match prev {
        Some(p) => if p == t {
            seq![]
        } else {
            seq![MapChangeView::UpdateMaptemplate(t)]
        },
        None => seq![MapChangeView::NewMapTemplate(t)],
    }
}

/// The changes of the whole new template section, in section order.
pub open spec fn template_update_changes(
    last: Option<Seq<MapTemplateView>>,
    new: Seq<MapTemplateView>,
) -> Seq<MapChangeView>
    decreases new.len(),
{
    if new.len() == 0 {
        seq![]
    } else {
        template_update_changes(last, new.drop_last()) + template_change(last, new.last())
    }
}

/// One removal per template of the old section, in section order.
pub open spec fn template_removals(last: Seq<MapTemplateView>) -> Seq<MapChangeView> {
    Seq::new(last.len(), |i: int| MapChangeView::RemoveMapTemplate(last[i].name))
}

/// What the template section emits.
pub open spec fn template_section_changes(
    last: Option<Seq<MapTemplateView>>,
    new: Option<Seq<MapTemplateView>>,
) -> Seq<MapChangeView> {
    match new {
        Some(ts) => template_update_changes(last, ts),
        None => match last {
            Some(l) => template_removals(l),
            None => seq![],
        },
    }
}

// Shape section.
/// Whether some shape of `s` already carries the non-blank id `id`.
pub open spec fn shape_id_taken(s: Seq<MapShapeView>, id: Seq<char>) -> bool {
    exists|j: int| 0 <= j < s.len() && s[j].id.len() > 0 && s[j].id == id
}

/// The shape at position `i` after id assignment.
pub open spec fn assigned_shape(s: Seq<MapShapeView>, i: int) -> MapShapeView {
    if s[i].id.len() == 0 {
        MapShapeView { id: dec_str((i + 1) as nat), ..s[i] }
    } else {
        s[i]
    }
}

/// The shape section after id assignment.
pub open spec fn assigned_shape_ids(s: Seq<MapShapeView>) -> Seq<MapShapeView> {
    Seq::new(s.len(), |i: int| assigned_shape(s, i))
}

/// Id assignment succeeds for every blank shape id.
pub open spec fn shape_ids_assignable(s: Seq<MapShapeView>) -> bool {
    forall|i: int|
        0 <= i < s.len() && s[i].id.len() == 0 ==> !shape_id_taken(s, dec_str((i + 1) as nat))
}

/// The first shape of `last` that carries `id`, if any.
pub open spec fn find_shape(last: Seq<MapShapeView>, id: Seq<char>) -> Option<MapShapeView>
    decreases last.len(),
{
    if last.len() == 0 {
        None
    } else if last[0].id == id {
        Some(last[0])
    } else {
        find_shape(last.drop_first(), id)
    }
}

/// The changes one shape of the new section contributes.
pub open spec fn shape_change(last: Option<Seq<MapShapeView>>, s: MapShapeView) -> Seq<
    MapChangeView,
> {
    let prev = match last {
        Some(l) => find_shape(l, s.id),
        None => None,
    };
    match prev {
        Some(p) => if p == s {
            seq![]
        } else {
            seq![MapChangeView::UpdateMapShape(s)]
        },
        None => seq![MapChangeView::NewMapShape(s)],
    }
}

/// The changes of the whole new shape section, in section order.
pub open spec fn shape_update_changes(
    last: Option<Seq<MapShapeView>>,
    new: Seq<MapShapeView>,
) -> Seq<MapChangeView>
    decreases new.len(),
{
    if new.len() == 0 {
        seq![]
    } else {
        shape_update_changes(last, new.drop_last()) + shape_change(last, new.last())
    }
}

/// One removal per shape of the old section, in section order.
pub open spec fn shape_removals(last: Seq<MapShapeView>) -> Seq<MapChangeView> {
    Seq::new(last.len(), |i: int| MapChangeView::RemoveMapShape(last[i].id))
}

/// What the shape section emits.
pub open spec fn shape_section_changes(
    last: Option<Seq<MapShapeView>>,
    new: Option<Seq<MapShapeView>>,
) -> Seq<MapChangeView> {
    match new {
        Some(ss) => shape_update_changes(last, assigned_shape_ids(ss)),
        None => match last {
            Some(l) => shape_removals(l),
            None => seq![],
        },
    }
}

// Light section.
/// Whether some light of `s` already carries the non-blank id `id`.
pub open spec fn light_id_taken(s: Seq<LightView>, id: Seq<char>) -> bool {
    exists|j: int| 0 <= j < s.len() && s[j].id.len() > 0 && s[j].id == id
}

/// The light at position `i` after id assignment.
pub open spec fn assigned_light(s: Seq<LightView>, i: int) -> LightView {
    if s[i].id.len() == 0 {
        LightView { id: dec_str((i + 1) as nat), ..s[i] }
    } else {
        s[i]
    }
}

/// The light section after id assignment.
pub open spec fn assigned_light_ids(s: Seq<LightView>) -> Seq<LightView> {
    Seq::new(s.len(), |i: int| assigned_light(s, i))
}

/// Id assignment succeeds for every blank light id.
pub open spec fn light_ids_assignable(s: Seq<LightView>) -> bool {
    forall|i: int|
        0 <= i < s.len() && s[i].id.len() == 0 ==> !light_id_taken(s, dec_str((i + 1) as nat))
}

/// The first light of `last` that carries `id`, if any.
pub open spec fn find_light(last: Seq<LightView>, id: Seq<char>) -> Option<LightView>
    decreases last.len(),
{
    if last.len() == 0 {
        None
    } else if last[0].id == id {
        Some(last[0])
    } else {
        find_light(last.drop_first(), id)
    }
}

/// The changes one light of the new section contributes.
pub open spec fn light_change(last: Option<Seq<LightView>>, l: LightView) -> Seq<MapChangeView> {
    let prev = match last {
        Some(ls) => find_light(ls, l.id),
        None => None,
    };
    match prev {
        Some(p) => if p == l {
            seq![]
        } else {
            seq![MapChangeView::UpdateLight(l)]
        },
        None => seq![MapChangeView::NewLight(l)],
    }
}

/// The changes of the whole new light section, in section order.
pub open spec fn light_update_changes(
    last: Option<Seq<LightView>>,
    new: Seq<LightView>,
) -> Seq<MapChangeView>
    decreases new.len(),
{
    if new.len() == 0 {
        seq![]
    } else {
        light_update_changes(last, new.drop_last()) + light_change(last, new.last())
    }
}

/// One removal per light of the old section, in section order.
pub open spec fn light_removals(last: Seq<LightView>) -> Seq<MapChangeView> {
    Seq::new(last.len(), |i: int| MapChangeView::RemoveLight(last[i].id))
}

/// What the light section emits.
pub open spec fn light_section_changes(
    last: Option<Seq<LightView>>,
    new: Option<Seq<LightView>>,
) -> Seq<MapChangeView> {
    match new {
        Some(ls) => light_update_changes(last, assigned_light_ids(ls)),
        None => match last {
            Some(l) => light_removals(l),
            None => seq![],
        },
    }
}

/// What the ambient light entry emits. A new map without one always
/// emits a removal, whether or not the old map had one.
pub open spec fn ambient_light_changes(
    last: Option<AmbientLightView>,
    new: Option<AmbientLightView>,
) -> Seq<MapChangeView> {
    match new {
        Some(a) => match last {
            Some(la) => if la == a {
                seq![]
            } else {
                seq![MapChangeView::UpdateAmbientLight(a)]
            },
            None => seq![MapChangeView::NewAmbientLight(a)],
        },
        None => seq![MapChangeView::RemoveAmbientLight],
    }
}

/// What the camera entry emits. A new map without one always emits a
/// removal, whether or not the old map had one.
pub open spec fn camera_changes(last: Option<MapCameraView>, new: Option<MapCameraView>) -> Seq<
    MapChangeView,
> {
    match new {
        Some(c) => match last {
            Some(lc) => if lc == c {
                seq![]
            } else {
                seq![MapChangeView::UpdateCamera(c)]
            },
            None => seq![MapChangeView::NewCamera(c)],
        },
        None => seq![MapChangeView::RemoveCamera],
    }
}

/// The new map after id assignment in its entity, shape and light
/// sections; the other sections are untouched.
pub open spec fn assigned_map(new: GameMapView) -> GameMapView {
    GameMapView {
        entities: match new.entities {
            Some(es) => Some(assigned_entity_ids(es)),
            None => None,
        },
        templates: new.templates,
        shapes: match new.shapes {
            Some(ss) => Some(assigned_shape_ids(ss)),
            None => None,
        },
        lights: match new.lights {
            Some(ls) => Some(assigned_light_ids(ls)),
            None => None,
        },
        ambient_light: new.ambient_light,
        camera: new.camera,
    }
}

/// Every change the diff of `last` against `new` emits, in order:
/// entities, templates, shapes, lights, ambient light, camera.
pub open spec fn all_changes(last: GameMapView, new: GameMapView) -> Seq<MapChangeView> {
    entity_section_changes(last.entities, new.entities) + template_section_changes(
        last.templates,
        new.templates,
    ) + shape_section_changes(last.shapes, new.shapes) + light_section_changes(
        last.lights,
        new.lights,
    ) + ambient_light_changes(last.ambient_light, new.ambient_light) + camera_changes(
        last.camera,
        new.camera,
    )
}

/// The inputs on which the diff is defined: a section missing from
/// both maps would make it fail, as would a blank id whose fresh
/// numeral is already taken.
pub open spec fn diff_defined(last: GameMapView, new: GameMapView) -> bool {
    &&& (new.entities is None ==> last.entities is Some)
    &&& (new.templates is None ==> last.templates is Some)
    &&& (new.shapes is None ==> last.shapes is Some)
    &&& (new.lights is None ==> last.lights is Some)
    &&& (match new.entities {
        Some(es) => entity_ids_assignable(es),
        None => true,
    })
    &&& (match new.shapes {
        Some(ss) => shape_ids_assignable(ss),
        None => true,
    })
    &&& (match new.lights {
        Some(ls) => light_ids_assignable(ls),
        None => true,
    })
}

/// Every entity already carries an id.
pub open spec fn entity_ids_all_present(s: Seq<MapEntityView>) -> bool {
    forall|i: int| 0 <= i < s.len() ==> (#[trigger] s[i]).entity_id.len() > 0
}

/// No two entities share an id.
pub open spec fn entity_ids_unique(s: Seq<MapEntityView>) -> bool {
    forall|a: int, b: int|
        0 <= a < b < s.len() ==> (#[trigger] s[a]).entity_id != (#[trigger] s[b]).entity_id
}

/// No two templates share a name.
pub open spec fn template_names_unique(s: Seq<MapTemplateView>) -> bool {
    forall|a: int, b: int| 0 <= a < b < s.len() ==> (#[trigger] s[a]).name != (#[trigger] s[b]).name
}

/// Every shape already carries an id.
pub open spec fn shape_ids_all_present(s: Seq<MapShapeView>) -> bool {
    forall|i: int| 0 <= i < s.len() ==> (#[trigger] s[i]).id.len() > 0
}

/// No two shapes share an id.
pub open spec fn shape_ids_unique(s: Seq<MapShapeView>) -> bool {
    forall|a: int, b: int| 0 <= a < b < s.len() ==> (#[trigger] s[a]).id != (#[trigger] s[b]).id
}

/// Every light already carries an id.
pub open spec fn light_ids_all_present(s: Seq<LightView>) -> bool {
    forall|i: int| 0 <= i < s.len() ==> (#[trigger] s[i]).id.len() > 0
}

/// No two lights share an id.
pub open spec fn light_ids_unique(s: Seq<LightView>) -> bool {
    forall|a: int, b: int| 0 <= a < b < s.len() ==> (#[trigger] s[a]).id != (#[trigger] s[b]).id
}

/// The one-character string of one decimal digit.
fn digit_str(d: usize) -> (s: &'static str)
    requires
        d < 10,
    ensures
        s@ =~= seq![dec_digit(d as nat)],
{
    proof {
        reveal_strlit("0");
        reveal_strlit("1");
        reveal_strlit("2");
        reveal_strlit("3");
        reveal_strlit("4");
        reveal_strlit("5");
        reveal_strlit("6");
        reveal_strlit("7");
        reveal_strlit("8");
        reveal_strlit("9");
    }
    if d == 0 {
        "0"
    } else if d == 1 {
        "1"
    } else if d == 2 {
        "2"
    } else if d == 3 {
        "3"
    } else if d == 4 {
        "4"
    } else if d == 5 {
        "5"
    } else if d == 6 {
        "6"
    } else if d == 7 {
        "7"
    } else if d == 8 {
        "8"
    } else {
        "9"
    }
}

/// The decimal numeral of `n`, as fresh ids are spelled.
pub fn decimal_string(n: usize) -> (s: String)
    ensures
        s@ == dec_str(n as nat),
    decreases n,
{
    if n < 10 {
        let s = digit_str(n).to_owned();
        proof {
            assert(s@ =~= dec_str(n as nat));
        }
        s
    } else {
        let mut s = decimal_string(n / 10);
        s.append(digit_str(n % 10));
        proof {
            assert(s@ =~= dec_str(n as nat));
        }
        s
    }
}

/// Whether one of the collected id strings spells `id`.
fn ids_contain(ids: &Vec<String>, id: &String) -> (r: bool)
    ensures
        r == (exists|k: int| 0 <= k < ids@.len() && #[trigger] ids@[k]@ == id@),
{
    let n = ids.len();
    let mut k: usize = 0;
    while k < n
        invariant
            n == ids@.len(),
            k <= n,
            forall|j: int| 0 <= j < k ==> #[trigger] ids@[j]@ != id@,
        decreases n - k,
    {
        if ids[k].eq(id) {
            return true;
        }
        k += 1;
    }
    false
}

// The entity section.
/// The non-blank ids the entities already carry, for the collision
/// check of id assignment.
fn collect_entity_ids(v: &Vec<MapEntity>) -> (ids: Vec<String>)
    ensures
        forall|k: int|
            0 <= k < ids@.len() ==> entity_id_taken(v.deep_view(), #[trigger] ids@[k]@),
        forall|j: int|
            0 <= j < v@.len() && #[trigger] v@[j].entity_id@.len() > 0 ==> exists|k: int|
                0 <= k < ids@.len() && #[trigger] ids@[k]@ == v@[j].entity_id@,
{
    let mut ids: Vec<String> = Vec::new();
    let n = v.len();
    let mut j: usize = 0;
    while j < n
        invariant
            n == v@.len(),
            j <= n,
            forall|k: int|
                0 <= k < ids@.len() ==> entity_id_taken(v.deep_view(), #[trigger] ids@[k]@),
            forall|j2: int|
                0 <= j2 < j && #[trigger] v@[j2].entity_id@.len() > 0 ==> exists|k: int|
                    0 <= k < ids@.len() && #[trigger] ids@[k]@ == v@[j2].entity_id@,
        decreases n - j,
    {
        if !v[j].entity_id.as_str().is_empty() {
            let ghost old_ids = ids@;
            ids.push(v[j].entity_id.clone());
            proof {
                let es = v.deep_view();
                assert(es[j as int].entity_id == v@[j as int].entity_id@);
                assert(entity_id_taken(es, ids@[ids@.len() - 1]@));
                assert(ids@[ids@.len() - 1]@ == v@[j as int].entity_id@);
                assert forall|j2: int|
                    0 <= j2 < j + 1 && #[trigger] v@[j2].entity_id@.len() > 0 implies exists|
                    k: int,
                |
                    0 <= k < ids@.len() && #[trigger] ids@[k]@ == v@[j2].entity_id@ by {
                    if j2 == j as int {
                        assert(ids@[ids@.len() - 1]@ == v@[j2].entity_id@);
                    } else {
                        let k0 = choose|k: int|
                            0 <= k < old_ids.len() && #[trigger] old_ids[k]@
                                == v@[j2].entity_id@;
                        assert(ids@[k0]@ == v@[j2].entity_id@);
                    }
                }
            }
        } else {
            proof {
                assert(v@[j as int].entity_id@.len() == 0);
            }
        }
        j += 1;
    }
    ids
}

/// Gives each entity with a blank id its fresh decimal id.
fn assign_entity_ids(entities: &mut Vec<MapEntity>)
    requires
        entity_ids_assignable(old(entities).deep_view()),
    ensures
        final(entities).deep_view() == assigned_entity_ids(old(entities).deep_view()),
{
    let ghost es0 = old(entities).deep_view();
    let ids = collect_entity_ids(entities);
    let n = entities.len();
    let mut index: usize = 0;
    while index < n
        invariant
            n == entities@.len() == old(entities)@.len(),
            index <= n,
            es0 == old(entities).deep_view(),
            entity_ids_assignable(es0),
            forall|k: int| index <= k < n ==> entities@[k] == old(entities)@[k],
            forall|k: int|
                0 <= k < index ==> entities@[k].deep_view() == assigned_entity(es0, k),
            forall|k: int| 0 <= k < ids@.len() ==> entity_id_taken(es0, #[trigger] ids@[k]@),
        decreases n - index,
    {
        if entities[index].entity_id.as_str().is_empty() {
            let new_id = decimal_string(index + 1);
            if !ids_contain(&ids, &new_id) {
                proof {
                    assert(entities@[index as int].deep_view() == es0[index as int]);
                }
                entities[index].entity_id = new_id;
                proof {
                    assert(entities@[index as int].deep_view() == assigned_entity(
                        es0,
                        index as int,
                    ));
                }
            } else {
                // ruled out by the assignability precondition
                proof {
                    assert(false);
                }
            }
        } else {
            proof {
                assert(entities@[index as int].deep_view() == es0[index as int]);
            }
        }
        index += 1;
    }
    proof {
        assert(entities.deep_view() =~= assigned_entity_ids(es0));
    }
}

proof fn lemma_find_entity_from(l: Seq<MapEntityView>, id: Seq<char>, i: int)
    requires
        0 <= i <= l.len(),
        forall|k: int| 0 <= k < i ==> #[trigger] l[k].entity_id != id,
    ensures
        find_entity(l, id) == find_entity(l.skip(i), id),
    decreases i,
{
    if i == 0 {
        assert(l.skip(0) =~= l);
    } else {
        lemma_find_entity_from(l, id, i - 1);
        let s = l.skip(i - 1);
        assert(s.len() > 0);
        assert(s[0] == l[i - 1]);
        assert(s.drop_first() =~= l.skip(i));
        assert(find_entity(s, id) == find_entity(s.drop_first(), id));
    }
}

/// The position of the first entity of `last` that carries `id`.
fn find_entity_by_id(last: &Vec<MapEntity>, id: &String) -> (r: Option<usize>)
    ensures
        match r {
            Some(j) => j < last@.len() && find_entity(last.deep_view(), id@) == Some(
                last@[j as int].deep_view(),
            ),
            None => find_entity(last.deep_view(), id@) is None,
        },
{
    let n = last.len();
    let mut j: usize = 0;
    while j < n
        invariant
            n == last@.len(),
            j <= n,
            forall|k: int| 0 <= k < j ==> #[trigger] last.deep_view()[k].entity_id != id@,
        decreases n - j,
    {
        if last[j].entity_id.eq(id) {
            proof {
                lemma_find_entity_from(last.deep_view(), id@, j as int);
                assert(last.deep_view().skip(j as int)[0] == last.deep_view()[j as int]);
            }
            return Some(j);
        }
        j += 1;
    }
    proof {
        lemma_find_entity_from(last.deep_view(), id@, n as int);
        assert(last.deep_view().skip(n as int).len() == 0);
    }
    None
}

/// Diffs the entity sections, appending the emitted changes; gives the
/// new section its assigned ids.
fn diff_entities(
    last_entities: &Option<Vec<MapEntity>>,
    new_entities: &mut Option<Vec<MapEntity>>,
    changes: &mut Vec<MapChange>,
)
    requires
        (*old(new_entities)) is None ==> (*last_entities) is Some,
        match *old(new_entities) {
            Some(es) => entity_ids_assignable(es.deep_view()),
            None => true,
        },
    ensures
        final(new_entities).deep_view() == (match old(new_entities).deep_view() {
            Some(es) => Some(assigned_entity_ids(es)),
            None => None::<Seq<MapEntityView>>,
        }),
        final(changes).deep_view() == old(changes).deep_view() + entity_section_changes(
            last_entities.deep_view(),
            old(new_entities).deep_view(),
        ),
{
    let ghost changes0 = old(changes).deep_view();
    let ghost lastv = last_entities.deep_view();
    match new_entities {
        Some(entities) => {
            assign_entity_ids(entities);
            let ghost es = entities.deep_view();
            let n = entities.len();
            let mut i: usize = 0;
            while i < n
                invariant
                    n == entities@.len(),
                    i <= n,
                    es == entities.deep_view(),
                    lastv == last_entities.deep_view(),
                    changes.deep_view() == changes0 + entity_update_changes(
                        lastv,
                        es.take(i as int),
                    ),
                decreases n - i,
            {
                let ghost pushed = changes.deep_view();
                match last_entities {
                    Some(l) => {
                        match find_entity_by_id(l, &entities[i].entity_id) {
                            Some(j) => {
                                if !eq_map_entity(&l[j], &entities[i]) {
                                    changes.push(MapChange::UpdateMapEntity(entities[i].clone()));
                                }
                            },
                            None => {
                                changes.push(MapChange::NewMapEntity(entities[i].clone()));
                            },
                        }
                    },
                    None => {
                        changes.push(MapChange::NewMapEntity(entities[i].clone()));
                    },
                }
                proof {
                    let t1 = es.take(i + 1);
                    assert(t1.drop_last() =~= es.take(i as int));
                    assert(t1.last() == es[i as int]);
                    assert(t1.len() == i + 1);
                    assert(entity_update_changes(lastv, t1) == entity_update_changes(
                        lastv,
                        es.take(i as int),
                    ) + entity_change(lastv, es[i as int]));
                    assert(changes.deep_view() =~= pushed + entity_change(lastv, es[i as int]));
                    assert(changes.deep_view() =~= changes0 + entity_update_changes(lastv, t1));
                }
                i += 1;
            }
            proof {
                assert(es.take(n as int) =~= es);
            }
        },
        None => {
            match last_entities {
                Some(l) => {
                    let ghost lv = l.deep_view();
                    let n = l.len();
                    let mut i: usize = 0;
                    while i < n
                        invariant
                            n == l@.len(),
                            lv == l.deep_view(),
                            i <= n,
                            changes.deep_view() == changes0 + entity_removals(lv).take(i as int),
                        decreases n - i,
                    {
                        let ghost pushed = changes.deep_view();
                        changes.push(MapChange::RemoveMapEntity(l[i].entity_id.clone()));
                        proof {
                            let r = entity_removals(lv);
                            assert(changes.deep_view() =~= pushed + seq![
                                MapChangeView::RemoveMapEntity(lv[i as int].entity_id),
                            ]);
                            assert(r.take(i + 1) =~= r.take(i as int) + seq![r[i as int]]);
                            assert(changes.deep_view() =~= changes0 + r.take(i + 1));
                        }
                        i += 1;
                    }
                    proof {
                        assert(entity_removals(lv).take(n as int) =~= entity_removals(lv));
                    }
                },
                None => {
                    // a section missing on both sides is excluded by
                    // the precondition
                    proof {
                        assert(false);
                    }
                },
            }
        },
    }
}

// The template section.
proof fn lemma_find_template_from(l: Seq<MapTemplateView>, name: Seq<char>, i: int)
    requires
        0 <= i <= l.len(),
        forall|k: int| 0 <= k < i ==> #[trigger] l[k].name != name,
    ensures
        find_template(l, name) == find_template(l.skip(i), name),
    decreases i,
{
    if i == 0 {
        assert(l.skip(0) =~= l);
    } else {
        lemma_find_template_from(l, name, i - 1);
        let s = l.skip(i - 1);
        assert(s.len() > 0);
        assert(s[0] == l[i - 1]);
        assert(s.drop_first() =~= l.skip(i));
        assert(find_template(s, name) == find_template(s.drop_first(), name));
    }
}

/// The position of the first template of `last` that carries `name`.
fn find_template_by_name(last: &Vec<MapTemplate>, name: &String) -> (r: Option<usize>)
    ensures
        match r {
            Some(j) => j < last@.len() && find_template(last.deep_view(), name@) == Some(
                last@[j as int].deep_view(),
            ),
            None => find_template(last.deep_view(), name@) is None,
        },
{
    let n = last.len();
    let mut j: usize = 0;
    while j < n
        invariant
            n == last@.len(),
            j <= n,
            forall|k: int| 0 <= k < j ==> #[trigger] last.deep_view()[k].name != name@,
        decreases n - j,
    {
        if last[j].name.eq(name) {
            proof {
                lemma_find_template_from(last.deep_view(), name@, j as int);
                assert(last.deep_view().skip(j as int)[0] == last.deep_view()[j as int]);
            }
            return Some(j);
        }
        j += 1;
    }
    proof {
        lemma_find_template_from(last.deep_view(), name@, n as int);
        assert(last.deep_view().skip(n as int).len() == 0);
    }
    None
}

/// Diffs the template sections, appending the emitted changes.
fn diff_templates(
    last_templates: &Option<Vec<MapTemplate>>,
    new_templates: &Option<Vec<MapTemplate>>,
    changes: &mut Vec<MapChange>,
)
    requires
        (*new_templates) is None ==> (*last_templates) is Some,
    ensures
        final(changes).deep_view() == old(changes).deep_view() + template_section_changes(
            last_templates.deep_view(),
            new_templates.deep_view(),
        ),
{
    let ghost changes0 = old(changes).deep_view();
    let ghost lastv = last_templates.deep_view();
    match new_templates {
        Some(templates) => {
            let ghost ts = templates.deep_view();
            let n = templates.len();
            let mut i: usize = 0;
            while i < n
                invariant
                    n == templates@.len(),
                    i <= n,
                    ts == templates.deep_view(),
                    lastv == last_templates.deep_view(),
                    changes.deep_view() == changes0 + template_update_changes(
                        lastv,
                        ts.take(i as int),
                    ),
                decreases n - i,
            {
                let ghost pushed = changes.deep_view();
                match last_templates {
                    Some(l) => {
                        match find_template_by_name(l, &templates[i].name) {
                            Some(j) => {
                                if !eq_map_template(&l[j], &templates[i]) {
                                    changes.push(
                                        MapChange::UpdateMaptemplate(templates[i].clone()),
                                    );
                                }
                            },
                            None => {
                                changes.push(MapChange::NewMapTemplate(templates[i].clone()));
                            },
                        }
                    },
                    None => {
                        changes.push(MapChange::NewMapTemplate(templates[i].clone()));
                    },
                }
                proof {
                    let t1 = ts.take(i + 1);
                    assert(t1.drop_last() =~= ts.take(i as int));
                    assert(t1.last() == ts[i as int]);
                    assert(t1.len() == i + 1);
                    assert(template_update_changes(lastv, t1) == template_update_changes(
                        lastv,
                        ts.take(i as int),
                    ) + template_change(lastv, ts[i as int]));
                    assert(changes.deep_view() =~= pushed + template_change(lastv, ts[i as int]));
                    assert(changes.deep_view() =~= changes0 + template_update_changes(lastv, t1));
                }
                i += 1;
            }
            proof {
                assert(ts.take(n as int) =~= ts);
            }
        },
        None => {
            match last_templates {
                Some(l) => {
                    let ghost lv = l.deep_view();
                    let n = l.len();
                    let mut i: usize = 0;
                    while i < n
                        invariant
                            n == l@.len(),
                            lv == l.deep_view(),
                            i <= n,
                            changes.deep_view() == changes0 + template_removals(lv).take(i as int),
                        decreases n - i,
                    {
                        let ghost pushed = changes.deep_view();
                        changes.push(MapChange::RemoveMapTemplate(l[i].name.clone()));
                        proof {
                            let r = template_removals(lv);
                            assert(changes.deep_view() =~= pushed + seq![
                                MapChangeView::RemoveMapTemplate(lv[i as int].name),
                            ]);
                            assert(r.take(i + 1) =~= r.take(i as int) + seq![r[i as int]]);
                            assert(changes.deep_view() =~= changes0 + r.take(i + 1));
                        }
                        i += 1;
                    }
                    proof {
                        assert(template_removals(lv).take(n as int) =~= template_removals(lv));
                    }
                },
                None => {
                    // a section missing on both sides is excluded by
                    // the precondition
                    proof {
                        assert(false);
                    }
                },
            }
        },
    }
}

// The shape section.
/// The non-blank ids the shapes already carry.
fn collect_shape_ids(v: &Vec<MapShape>) -> (ids: Vec<String>)
    ensures
        forall|k: int| 0 <= k < ids@.len() ==> shape_id_taken(v.deep_view(), #[trigger] ids@[k]@),
        forall|j: int|
            0 <= j < v@.len() && #[trigger] v@[j].id@.len() > 0 ==> exists|k: int|
                0 <= k < ids@.len() && #[trigger] ids@[k]@ == v@[j].id@,
{
    let mut ids: Vec<String> = Vec::new();
    let n = v.len();
    let mut j: usize = 0;
    while j < n
        invariant
            n == v@.len(),
            j <= n,
            forall|k: int|
                0 <= k < ids@.len() ==> shape_id_taken(v.deep_view(), #[trigger] ids@[k]@),
            forall|j2: int|
                0 <= j2 < j && #[trigger] v@[j2].id@.len() > 0 ==> exists|k: int|
                    0 <= k < ids@.len() && #[trigger] ids@[k]@ == v@[j2].id@,
        decreases n - j,
    {
        if !v[j].id.as_str().is_empty() {
            let ghost old_ids = ids@;
            ids.push(v[j].id.clone());
            proof {
                let ss = v.deep_view();
                assert(ss[j as int].id == v@[j as int].id@);
                assert(shape_id_taken(ss, ids@[ids@.len() - 1]@));
                assert(ids@[ids@.len() - 1]@ == v@[j as int].id@);
                assert forall|j2: int|
                    0 <= j2 < j + 1 && #[trigger] v@[j2].id@.len() > 0 implies exists|k: int|
                    0 <= k < ids@.len() && #[trigger] ids@[k]@ == v@[j2].id@ by {
                    if j2 == j as int {
                        assert(ids@[ids@.len() - 1]@ == v@[j2].id@);
                    } else {
                        let k0 = choose|k: int|
                            0 <= k < old_ids.len() && #[trigger] old_ids[k]@ == v@[j2].id@;
                        assert(ids@[k0]@ == v@[j2].id@);
                    }
                }
            }
        } else {
            proof {
                assert(v@[j as int].id@.len() == 0);
            }
        }
        j += 1;
    }
    ids
}

/// Gives each shape with a blank id its fresh decimal id.
fn assign_shape_ids(shapes: &mut Vec<MapShape>)
    requires
        shape_ids_assignable(old(shapes).deep_view()),
    ensures
        final(shapes).deep_view() == assigned_shape_ids(old(shapes).deep_view()),
{
    let ghost ss0 = old(shapes).deep_view();
    let ids = collect_shape_ids(shapes);
    let n = shapes.len();
    let mut index: usize = 0;
    while index < n
        invariant
            n == shapes@.len() == old(shapes)@.len(),
            index <= n,
            ss0 == old(shapes).deep_view(),
            shape_ids_assignable(ss0),
            forall|k: int| index <= k < n ==> shapes@[k] == old(shapes)@[k],
            forall|k: int| 0 <= k < index ==> shapes@[k].deep_view() == assigned_shape(ss0, k),
            forall|k: int| 0 <= k < ids@.len() ==> shape_id_taken(ss0, #[trigger] ids@[k]@),
        decreases n - index,
    {
        if shapes[index].id.as_str().is_empty() {
            let new_id = decimal_string(index + 1);
            if !ids_contain(&ids, &new_id) {
                proof {
                    assert(shapes@[index as int].deep_view() == ss0[index as int]);
                }
                shapes[index].id = new_id;
                proof {
                    assert(shapes@[index as int].deep_view() == assigned_shape(ss0, index as int));
                }
            } else {
                // ruled out by the assignability precondition
                proof {
                    assert(false);
                }
            }
        } else {
            proof {
                assert(shapes@[index as int].deep_view() == ss0[index as int]);
            }
        }
        index += 1;
    }
    proof {
        assert(shapes.deep_view() =~= assigned_shape_ids(ss0));
    }
}

proof fn lemma_find_shape_from(l: Seq<MapShapeView>, id: Seq<char>, i: int)
    requires
        0 <= i <= l.len(),
        forall|k: int| 0 <= k < i ==> #[trigger] l[k].id != id,
    ensures
        find_shape(l, id) == find_shape(l.skip(i), id),
    decreases i,
{
    if i == 0 {
        assert(l.skip(0) =~= l);
    } else {
        lemma_find_shape_from(l, id, i - 1);
        let s = l.skip(i - 1);
        assert(s.len() > 0);
        assert(s[0] == l[i - 1]);
        assert(s.drop_first() =~= l.skip(i));
        assert(find_shape(s, id) == find_shape(s.drop_first(), id));
    }
}

/// The position of the first shape of `last` that carries `id`.
fn find_shape_by_id(last: &Vec<MapShape>, id: &String) -> (r: Option<usize>)
    ensures
        match r {
            Some(j) => j < last@.len() && find_shape(last.deep_view(), id@) == Some(
                last@[j as int].deep_view(),
            ),
            None => find_shape(last.deep_view(), id@) is None,
        },
{
    let n = last.len();
    let mut j: usize = 0;
    while j < n
        invariant
            n == last@.len(),
            j <= n,
            forall|k: int| 0 <= k < j ==> #[trigger] last.deep_view()[k].id != id@,
        decreases n - j,
    {
        if last[j].id.eq(id) {
            proof {
                lemma_find_shape_from(last.deep_view(), id@, j as int);
                assert(last.deep_view().skip(j as int)[0] == last.deep_view()[j as int]);
            }
            return Some(j);
        }
        j += 1;
    }
    proof {
        lemma_find_shape_from(last.deep_view(), id@, n as int);
        assert(last.deep_view().skip(n as int).len() == 0);
    }
    None
}

/// Diffs the shape sections, appending the emitted changes; gives the
/// new section its assigned ids.
fn diff_shapes(
    last_shapes: &Option<Vec<MapShape>>,
    new_shapes: &mut Option<Vec<MapShape>>,
    changes: &mut Vec<MapChange>,
)
    requires
        (*old(new_shapes)) is None ==> (*last_shapes) is Some,
        match *old(new_shapes) {
            Some(ss) => shape_ids_assignable(ss.deep_view()),
            None => true,
        },
    ensures
        final(new_shapes).deep_view() == (match old(new_shapes).deep_view() {
            Some(ss) => Some(assigned_shape_ids(ss)),
            None => None::<Seq<MapShapeView>>,
        }),
        final(changes).deep_view() == old(changes).deep_view() + shape_section_changes(
            last_shapes.deep_view(),
            old(new_shapes).deep_view(),
        ),
{
    let ghost changes0 = old(changes).deep_view();
    let ghost lastv = last_shapes.deep_view();
    match new_shapes {
        Some(shapes) => {
            assign_shape_ids(shapes);
            let ghost ss = shapes.deep_view();
            let n = shapes.len();
            let mut i: usize = 0;
            while i < n
                invariant
                    n == shapes@.len(),
                    i <= n,
                    ss == shapes.deep_view(),
                    lastv == last_shapes.deep_view(),
                    changes.deep_view() == changes0 + shape_update_changes(
                        lastv,
                        ss.take(i as int),
                    ),
                decreases n - i,
            {
                let ghost pushed = changes.deep_view();
                match last_shapes {
                    Some(l) => {
                        match find_shape_by_id(l, &shapes[i].id) {
                            Some(j) => {
                                if !eq_map_shape(&l[j], &shapes[i]) {
                                    changes.push(MapChange::UpdateMapShape(shapes[i].clone()));
                                }
                            },
                            None => {
                                changes.push(MapChange::NewMapShape(shapes[i].clone()));
                            },
                        }
                    },
                    None => {
                        changes.push(MapChange::NewMapShape(shapes[i].clone()));
                    },
                }
                proof {
                    let t1 = ss.take(i + 1);
                    assert(t1.drop_last() =~= ss.take(i as int));
                    assert(t1.last() == ss[i as int]);
                    assert(t1.len() == i + 1);
                    assert(shape_update_changes(lastv, t1) == shape_update_changes(
                        lastv,
                        ss.take(i as int),
                    ) + shape_change(lastv, ss[i as int]));
                    assert(changes.deep_view() =~= pushed + shape_change(lastv, ss[i as int]));
                    assert(changes.deep_view() =~= changes0 + shape_update_changes(lastv, t1));
                }
                i += 1;
            }
            proof {
                assert(ss.take(n as int) =~= ss);
            }
        },
        None => {
            match last_shapes {
                Some(l) => {
                    let ghost lv = l.deep_view();
                    let n = l.len();
                    let mut i: usize = 0;
                    while i < n
                        invariant
                            n == l@.len(),
                            lv == l.deep_view(),
                            i <= n,
                            changes.deep_view() == changes0 + shape_removals(lv).take(i as int),
                        decreases n - i,
                    {
                        let ghost pushed = changes.deep_view();
                        changes.push(MapChange::RemoveMapShape(l[i].id.clone()));
                        proof {
                            let r = shape_removals(lv);
                            assert(changes.deep_view() =~= pushed + seq![
                                MapChangeView::RemoveMapShape(lv[i as int].id),
                            ]);
                            assert(r.take(i + 1) =~= r.take(i as int) + seq![r[i as int]]);
                            assert(changes.deep_view() =~= changes0 + r.take(i + 1));
                        }
                        i += 1;
                    }
                    proof {
                        assert(shape_removals(lv).take(n as int) =~= shape_removals(lv));
                    }
                },
                None => {
                    // a section missing on both sides is excluded by
                    // the precondition
                    proof {
                        assert(false);
                    }
                },
            }
        },
    }
}

// The light section.
/// The non-blank ids the lights already carry.
fn collect_light_ids(v: &Vec<Light>) -> (ids: Vec<String>)
    ensures
        forall|k: int| 0 <= k < ids@.len() ==> light_id_taken(v.deep_view(), #[trigger] ids@[k]@),
        forall|j: int|
            0 <= j < v@.len() && #[trigger] v@[j].id@.len() > 0 ==> exists|k: int|
                0 <= k < ids@.len() && #[trigger] ids@[k]@ == v@[j].id@,
{
    let mut ids: Vec<String> = Vec::new();
    let n = v.len();
    let mut j: usize = 0;
    while j < n
        invariant
            n == v@.len(),
            j <= n,
            forall|k: int|
                0 <= k < ids@.len() ==> light_id_taken(v.deep_view(), #[trigger] ids@[k]@),
            forall|j2: int|
                0 <= j2 < j && #[trigger] v@[j2].id@.len() > 0 ==> exists|k: int|
                    0 <= k < ids@.len() && #[trigger] ids@[k]@ == v@[j2].id@,
        decreases n - j,
    {
        if !v[j].id.as_str().is_empty() {
            let ghost old_ids = ids@;
            ids.push(v[j].id.clone());
            proof {
                let ls = v.deep_view();
                assert(ls[j as int].id == v@[j as int].id@);
                assert(light_id_taken(ls, ids@[ids@.len() - 1]@));
                assert(ids@[ids@.len() - 1]@ == v@[j as int].id@);
                assert forall|j2: int|
                    0 <= j2 < j + 1 && #[trigger] v@[j2].id@.len() > 0 implies exists|k: int|
                    0 <= k < ids@.len() && #[trigger] ids@[k]@ == v@[j2].id@ by {
                    if j2 == j as int {
                        assert(ids@[ids@.len() - 1]@ == v@[j2].id@);
                    } else {
                        let k0 = choose|k: int|
                            0 <= k < old_ids.len() && #[trigger] old_ids[k]@ == v@[j2].id@;
                        assert(ids@[k0]@ == v@[j2].id@);
                    }
                }
            }
        } else {
            proof {
                assert(v@[j as int].id@.len() == 0);
            }
        }
        j += 1;
    }
    ids
}

/// Gives each light with a blank id its fresh decimal id.
fn assign_light_ids(lights: &mut Vec<Light>)
    requires
        light_ids_assignable(old(lights).deep_view()),
    ensures
        final(lights).deep_view() == assigned_light_ids(old(lights).deep_view()),
{
    let ghost ls0 = old(lights).deep_view();
    let ids = collect_light_ids(lights);
    let n = lights.len();
    let mut index: usize = 0;
    while index < n
        invariant
            n == lights@.len() == old(lights)@.len(),
            index <= n,
            ls0 == old(lights).deep_view(),
            light_ids_assignable(ls0),
            forall|k: int| index <= k < n ==> lights@[k] == old(lights)@[k],
            forall|k: int| 0 <= k < index ==> lights@[k].deep_view() == assigned_light(ls0, k),
            forall|k: int| 0 <= k < ids@.len() ==> light_id_taken(ls0, #[trigger] ids@[k]@),
        decreases n - index,
    {
        if lights[index].id.as_str().is_empty() {
            let new_id = decimal_string(index + 1);
            if !ids_contain(&ids, &new_id) {
                proof {
                    assert(lights@[index as int].deep_view() == ls0[index as int]);
                }
                lights[index].id = new_id;
                proof {
                    assert(lights@[index as int].deep_view() == assigned_light(ls0, index as int));
                }
            } else {
                // ruled out by the assignability precondition
                proof {
                    assert(false);
                }
            }
        } else {
            proof {
                assert(lights@[index as int].deep_view() == ls0[index as int]);
            }
        }
        index += 1;
    }
    proof {
        assert(lights.deep_view() =~= assigned_light_ids(ls0));
    }
}

proof fn lemma_find_light_from(l: Seq<LightView>, id: Seq<char>, i: int)
    requires
        0 <= i <= l.len(),
        forall|k: int| 0 <= k < i ==> #[trigger] l[k].id != id,
    ensures
        find_light(l, id) == find_light(l.skip(i), id),
    decreases i,
{
    if i == 0 {
        assert(l.skip(0) =~= l);
    } else {
        lemma_find_light_from(l, id, i - 1);
        let s = l.skip(i - 1);
        assert(s.len() > 0);
        assert(s[0] == l[i - 1]);
        assert(s.drop_first() =~= l.skip(i));
        assert(find_light(s, id) == find_light(s.drop_first(), id));
    }
}

/// The position of the first light of `last` that carries `id`.
fn find_light_by_id(last: &Vec<Light>, id: &String) -> (r: Option<usize>)
    ensures
        match r {
            Some(j) => j < last@.len() && find_light(last.deep_view(), id@) == Some(
                last@[j as int].deep_view(),
            ),
            None => find_light(last.deep_view(), id@) is None,
        },
{
    let n = last.len();
    let mut j: usize = 0;
    while j < n
        invariant
            n == last@.len(),
            j <= n,
            forall|k: int| 0 <= k < j ==> #[trigger] last.deep_view()[k].id != id@,
        decreases n - j,
    {
        if last[j].id.eq(id) {
            proof {
                lemma_find_light_from(last.deep_view(), id@, j as int);
                assert(last.deep_view().skip(j as int)[0] == last.deep_view()[j as int]);
            }
            return Some(j);
        }
        j += 1;
    }
    proof {
        lemma_find_light_from(last.deep_view(), id@, n as int);
        assert(last.deep_view().skip(n as int).len() == 0);
    }
    None
}

/// Diffs the light sections, appending the emitted changes; gives the
/// new section its assigned ids.
fn diff_lights(
    last_lights: &Option<Vec<Light>>,
    new_lights: &mut Option<Vec<Light>>,
    changes: &mut Vec<MapChange>,
)
    requires
        (*old(new_lights)) is None ==> (*last_lights) is Some,
        match *old(new_lights) {
            Some(ls) => light_ids_assignable(ls.deep_view()),
            None => true,
        },
    ensures
        final(new_lights).deep_view() == (match old(new_lights).deep_view() {
            Some(ls) => Some(assigned_light_ids(ls)),
            None => None::<Seq<LightView>>,
        }),
        final(changes).deep_view() == old(changes).deep_view() + light_section_changes(
            last_lights.deep_view(),
            old(new_lights).deep_view(),
        ),
{
    let ghost changes0 = old(changes).deep_view();
    let ghost lastv = last_lights.deep_view();
    match new_lights {
        Some(lights) => {
            assign_light_ids(lights);
            let ghost ls = lights.deep_view();
            let n = lights.len();
            let mut i: usize = 0;
            while i < n
                invariant
                    n == lights@.len(),
                    i <= n,
                    ls == lights.deep_view(),
                    lastv == last_lights.deep_view(),
                    changes.deep_view() == changes0 + light_update_changes(
                        lastv,
                        ls.take(i as int),
                    ),
                decreases n - i,
            {
                let ghost pushed = changes.deep_view();
                match last_lights {
                    Some(l) => {
                        match find_light_by_id(l, &lights[i].id) {
                            Some(j) => {
                                if !eq_light(&l[j], &lights[i]) {
                                    changes.push(MapChange::UpdateLight(lights[i].clone()));
                                }
                            },
                            None => {
                                changes.push(MapChange::NewLight(lights[i].clone()));
                            },
                        }
                    },
                    None => {
                        changes.push(MapChange::NewLight(lights[i].clone()));
                    },
                }
                proof {
                    let t1 = ls.take(i + 1);
                    assert(t1.drop_last() =~= ls.take(i as int));
                    assert(t1.last() == ls[i as int]);
                    assert(t1.len() == i + 1);
                    assert(light_update_changes(lastv, t1) == light_update_changes(
                        lastv,
                        ls.take(i as int),
                    ) + light_change(lastv, ls[i as int]));
                    assert(changes.deep_view() =~= pushed + light_change(lastv, ls[i as int]));
                    assert(changes.deep_view() =~= changes0 + light_update_changes(lastv, t1));
                }
                i += 1;
            }
            proof {
                assert(ls.take(n as int) =~= ls);
            }
        },
        None => {
            match last_lights {
                Some(l) => {
                    let ghost lv = l.deep_view();
                    let n = l.len();
                    let mut i: usize = 0;
                    while i < n
                        invariant
                            n == l@.len(),
                            lv == l.deep_view(),
                            i <= n,
                            changes.deep_view() == changes0 + light_removals(lv).take(i as int),
                        decreases n - i,
                    {
                        let ghost pushed = changes.deep_view();
                        changes.push(MapChange::RemoveLight(l[i].id.clone()));
                        proof {
                            let r = light_removals(lv);
                            assert(changes.deep_view() =~= pushed + seq![
                                MapChangeView::RemoveLight(lv[i as int].id),
                            ]);
                            assert(r.take(i + 1) =~= r.take(i as int) + seq![r[i as int]]);
                            assert(changes.deep_view() =~= changes0 + r.take(i + 1));
                        }
                        i += 1;
                    }
                    proof {
                        assert(light_removals(lv).take(n as int) =~= light_removals(lv));
                    }
                },
                None => {
                    // a section missing on both sides is excluded by
                    // the precondition
                    proof {
                        assert(false);
                    }
                },
            }
        },
    }
}

/// Whether id assignment would succeed for the entity section.
fn entity_ids_ok(entities: &Vec<MapEntity>) -> (r: bool)
    ensures
        r == entity_ids_assignable(entities.deep_view()),
{
    let ghost es = entities.deep_view();
    let ids = collect_entity_ids(entities);
    let n = entities.len();
    let mut i: usize = 0;
    while i < n
        invariant
            n == entities@.len(),
            i <= n,
            es == entities.deep_view(),
            forall|k: int| 0 <= k < ids@.len() ==> entity_id_taken(es, #[trigger] ids@[k]@),
            forall|j: int|
                0 <= j < es.len() && (#[trigger] es[j]).entity_id.len() > 0 ==> exists|k: int|
                    0 <= k < ids@.len() && #[trigger] ids@[k]@ == es[j].entity_id,
            forall|k: int|
                0 <= k < i && (#[trigger] es[k]).entity_id.len() == 0 ==> !entity_id_taken(
                    es,
                    dec_str((k + 1) as nat),
                ),
        decreases n - i,
    {
        if entities[i].entity_id.as_str().is_empty() {
            let fresh = decimal_string(i + 1);
            if ids_contain(&ids, &fresh) {
                proof {
                    assert(es[i as int].entity_id.len() == 0);
                    assert(entity_id_taken(es, dec_str((i + 1) as nat)));
                    assert(!entity_ids_assignable(es));
                }
                return false;
            }
            proof {
                if entity_id_taken(es, dec_str((i + 1) as nat)) {
                    let j = choose|j: int|
                        0 <= j < es.len() && (#[trigger] es[j]).entity_id.len() > 0
                            && es[j].entity_id == dec_str((i + 1) as nat);
                    assert(exists|k: int|
                        0 <= k < ids@.len() && #[trigger] ids@[k]@ == es[j].entity_id);
                    assert(false);
                }
            }
        }
        i += 1;
    }
    true
}

/// Whether id assignment would succeed for the shape section.
fn shape_ids_ok(shapes: &Vec<MapShape>) -> (r: bool)
    ensures
        r == shape_ids_assignable(shapes.deep_view()),
{
    let ghost ss = shapes.deep_view();
    let ids = collect_shape_ids(shapes);
    let n = shapes.len();
    let mut i: usize = 0;
    while i < n
        invariant
            n == shapes@.len(),
            i <= n,
            ss == shapes.deep_view(),
            forall|k: int| 0 <= k < ids@.len() ==> shape_id_taken(ss, #[trigger] ids@[k]@),
            forall|j: int|
                0 <= j < ss.len() && (#[trigger] ss[j]).id.len() > 0 ==> exists|k: int|
                    0 <= k < ids@.len() && #[trigger] ids@[k]@ == ss[j].id,
            forall|k: int|
                0 <= k < i && (#[trigger] ss[k]).id.len() == 0 ==> !shape_id_taken(
                    ss,
                    dec_str((k + 1) as nat),
                ),
        decreases n - i,
    {
        if shapes[i].id.as_str().is_empty() {
            let fresh = decimal_string(i + 1);
            if ids_contain(&ids, &fresh) {
                proof {
                    assert(ss[i as int].id.len() == 0);
                    assert(shape_id_taken(ss, dec_str((i + 1) as nat)));
                    assert(!shape_ids_assignable(ss));
                }
                return false;
            }
            proof {
                if shape_id_taken(ss, dec_str((i + 1) as nat)) {
                    let j = choose|j: int|
                        0 <= j < ss.len() && (#[trigger] ss[j]).id.len() > 0 && ss[j].id
                            == dec_str((i + 1) as nat);
                    assert(exists|k: int| 0 <= k < ids@.len() && #[trigger] ids@[k]@ == ss[j].id);
                    assert(false);
                }
            }
        }
        i += 1;
    }
    true
}

/// Whether id assignment would succeed for the light section.
fn light_ids_ok(lights: &Vec<Light>) -> (r: bool)
    ensures
        r == light_ids_assignable(lights.deep_view()),
{
    let ghost ls = lights.deep_view();
    let ids = collect_light_ids(lights);
    let n = lights.len();
    let mut i: usize = 0;
    while i < n
        invariant
            n == lights@.len(),
            i <= n,
            ls == lights.deep_view(),
            forall|k: int| 0 <= k < ids@.len() ==> light_id_taken(ls, #[trigger] ids@[k]@),
            forall|j: int|
                0 <= j < ls.len() && (#[trigger] ls[j]).id.len() > 0 ==> exists|k: int|
                    0 <= k < ids@.len() && #[trigger] ids@[k]@ == ls[j].id,
            forall|k: int|
                0 <= k < i && (#[trigger] ls[k]).id.len() == 0 ==> !light_id_taken(
                    ls,
                    dec_str((k + 1) as nat),
                ),
        decreases n - i,
    {
        if lights[i].id.as_str().is_empty() {
            let fresh = decimal_string(i + 1);
            if ids_contain(&ids, &fresh) {
                proof {
                    assert(ls[i as int].id.len() == 0);
                    assert(light_id_taken(ls, dec_str((i + 1) as nat)));
                    assert(!light_ids_assignable(ls));
                }
                return false;
            }
            proof {
                if light_id_taken(ls, dec_str((i + 1) as nat)) {
                    let j = choose|j: int|
                        0 <= j < ls.len() && (#[trigger] ls[j]).id.len() > 0 && ls[j].id
                            == dec_str((i + 1) as nat);
                    assert(exists|k: int| 0 <= k < ids@.len() && #[trigger] ids@[k]@ == ls[j].id);
                    assert(false);
                }
            }
        }
        i += 1;
    }
    true
}

/// Diffs a freshly parsed map against the previously loaded one and
/// returns the change events, in section order. Entities, shapes and
/// lights with blank ids get their fresh decimal ids in place, so the
/// caller can keep `new_map` as the map to diff against next time.
pub fn emit_changes(last_map: &GameMap, new_map: &mut GameMap) -> (changes: Vec<MapChange>)
    requires
        diff_defined(last_map.deep_view(), old(new_map).deep_view()),
    ensures
        final(new_map).deep_view() == assigned_map(old(new_map).deep_view()),
        changes.deep_view() == all_changes(last_map.deep_view(), old(new_map).deep_view()),
{
    let ghost lastv = last_map.deep_view();
    let ghost newv = old(new_map).deep_view();
    let mut changes: Vec<MapChange> = Vec::new();
    proof {
        assert(changes.deep_view() =~= Seq::<MapChangeView>::empty());
    }
    diff_entities(&last_map.entities, &mut new_map.entities, &mut changes);
    proof {
        assert(changes.deep_view() =~= entity_section_changes(lastv.entities, newv.entities));
    }
    let ghost c1 = changes.deep_view();
    diff_templates(&last_map.templates, &new_map.templates, &mut changes);
    let ghost c2 = changes.deep_view();
    diff_shapes(&last_map.shapes, &mut new_map.shapes, &mut changes);
    let ghost c3 = changes.deep_view();
    diff_lights(&last_map.lights, &mut new_map.lights, &mut changes);
    let ghost c4 = changes.deep_view();
    match (&new_map.ambient_light, &last_map.ambient_light) {
        (Some(a), Some(la)) => {
            if !eq_ambient_light(la, a) {
                changes.push(MapChange::UpdateAmbientLight(a.clone()));
            }
        },
        (Some(a), None) => {
            changes.push(MapChange::NewAmbientLight(a.clone()));
        },
        (None, _) => {
            changes.push(MapChange::RemoveAmbientLight);
        },
    }
    proof {
        assert(changes.deep_view() =~= c4 + ambient_light_changes(
            lastv.ambient_light,
            newv.ambient_light,
        ));
    }
    let ghost c5 = changes.deep_view();
    match (&new_map.camera, &last_map.camera) {
        (Some(c), Some(lc)) => {
            if !eq_map_camera(lc, c) {
                changes.push(MapChange::UpdateCamera(c.clone()));
            }
        },
        (Some(c), None) => {
            changes.push(MapChange::NewCamera(c.clone()));
        },
        (None, _) => {
            changes.push(MapChange::RemoveCamera);
        },
    }
    proof {
        assert(changes.deep_view() =~= c5 + camera_changes(lastv.camera, newv.camera));
        assert(changes.deep_view() =~= all_changes(lastv, newv));
        assert(new_map.deep_view() == assigned_map(newv));
    }
    changes
}

proof fn lemma_dec_str_nonempty(n: nat)
    ensures
        dec_str(n).len() >= 1,
    decreases n,
{
    if n >= 10 {
        lemma_dec_str_nonempty(n / 10);
    }
}

/// Distinct numbers spell distinct numerals.
proof fn lemma_dec_str_injective(a: nat, b: nat)
    requires
        dec_str(a) == dec_str(b),
    ensures
        a == b,
    decreases a,
{
    lemma_dec_str_nonempty(a);
    lemma_dec_str_nonempty(b);
    if a < 10 && b < 10 {
        assert(dec_str(a)[0] == dec_digit(a));
        assert(dec_str(b)[0] == dec_digit(b));
    } else if a < 10 && b >= 10 {
        lemma_dec_str_nonempty(b / 10);
        assert(dec_str(b).len() >= 2);
        assert(dec_str(a).len() == 1);
    } else if a >= 10 && b < 10 {
        lemma_dec_str_nonempty(a / 10);
        assert(dec_str(a).len() >= 2);
        assert(dec_str(b).len() == 1);
    } else {
        assert(dec_str(a).last() == dec_digit(a % 10));
        assert(dec_str(b).last() == dec_digit(b % 10));
        assert(a % 10 == b % 10);
        assert(dec_str(a).drop_last() =~= dec_str(a / 10));
        assert(dec_str(b).drop_last() =~= dec_str(b / 10));
        lemma_dec_str_injective(a / 10, b / 10);
    }
}

/// No two entities that already carry an id share it.
pub open spec fn entity_nonblank_ids_unique(s: Seq<MapEntityView>) -> bool {
    forall|a: int, b: int|
        0 <= a < b < s.len() && (#[trigger] s[a]).entity_id.len() > 0 && (
        #[trigger] s[b]).entity_id.len() > 0 ==> s[a].entity_id != s[b].entity_id
}

/// No two shapes that already carry an id share it.
pub open spec fn shape_nonblank_ids_unique(s: Seq<MapShapeView>) -> bool {
    forall|a: int, b: int|
        0 <= a < b < s.len() && (#[trigger] s[a]).id.len() > 0 && (#[trigger] s[b]).id.len() > 0
            ==> s[a].id != s[b].id
}

/// No two lights that already carry an id share it.
pub open spec fn light_nonblank_ids_unique(s: Seq<LightView>) -> bool {
    forall|a: int, b: int|
        0 <= a < b < s.len() && (#[trigger] s[a]).id.len() > 0 && (#[trigger] s[b]).id.len() > 0
            ==> s[a].id != s[b].id
}

/// When assignment succeeds and no two entities that already carried
/// an id shared it, the assigned section has pairwise distinct ids:
/// fresh numerals collide neither with kept ids nor with each other.
pub proof fn lemma_assigned_entity_ids_unique(s: Seq<MapEntityView>)
    requires
        entity_ids_assignable(s),
        entity_nonblank_ids_unique(s),
    ensures
        entity_ids_unique(assigned_entity_ids(s)),
{
    let a = assigned_entity_ids(s);
    assert forall|i: int, j: int| 0 <= i < j < a.len() implies (#[trigger] a[i]).entity_id != (
    #[trigger] a[j]).entity_id by {
        lemma_dec_str_nonempty((i + 1) as nat);
        lemma_dec_str_nonempty((j + 1) as nat);
        if s[i].entity_id.len() == 0 && s[j].entity_id.len() == 0 {
            if a[i].entity_id == a[j].entity_id {
                lemma_dec_str_injective((i + 1) as nat, (j + 1) as nat);
            }
        } else if s[i].entity_id.len() == 0 {
            assert(!entity_id_taken(s, dec_str((i + 1) as nat)));
            assert(s[j].entity_id != dec_str((i + 1) as nat));
        } else if s[j].entity_id.len() == 0 {
            assert(!entity_id_taken(s, dec_str((j + 1) as nat)));
            assert(s[i].entity_id != dec_str((j + 1) as nat));
        }
    }
}

/// When assignment succeeds and no two shapes that already carried an
/// id shared it, the assigned section has pairwise distinct ids.
pub proof fn lemma_assigned_shape_ids_unique(s: Seq<MapShapeView>)
    requires
        shape_ids_assignable(s),
        shape_nonblank_ids_unique(s),
    ensures
        shape_ids_unique(assigned_shape_ids(s)),
{
    let a = assigned_shape_ids(s);
    assert forall|i: int, j: int| 0 <= i < j < a.len() implies (#[trigger] a[i]).id != (
    #[trigger] a[j]).id by {
        lemma_dec_str_nonempty((i + 1) as nat);
        lemma_dec_str_nonempty((j + 1) as nat);
        if s[i].id.len() == 0 && s[j].id.len() == 0 {
            if a[i].id == a[j].id {
                lemma_dec_str_injective((i + 1) as nat, (j + 1) as nat);
            }
        } else if s[i].id.len() == 0 {
            assert(!shape_id_taken(s, dec_str((i + 1) as nat)));
            assert(s[j].id != dec_str((i + 1) as nat));
        } else if s[j].id.len() == 0 {
            assert(!shape_id_taken(s, dec_str((j + 1) as nat)));
            assert(s[i].id != dec_str((j + 1) as nat));
        }
    }
}

/// When assignment succeeds and no two lights that already carried an
/// id shared it, the assigned section has pairwise distinct ids.
pub proof fn lemma_assigned_light_ids_unique(s: Seq<LightView>)
    requires
        light_ids_assignable(s),
        light_nonblank_ids_unique(s),
    ensures
        light_ids_unique(assigned_light_ids(s)),
{
    let a = assigned_light_ids(s);
    assert forall|i: int, j: int| 0 <= i < j < a.len() implies (#[trigger] a[i]).id != (
    #[trigger] a[j]).id by {
        lemma_dec_str_nonempty((i + 1) as nat);
        lemma_dec_str_nonempty((j + 1) as nat);
        if s[i].id.len() == 0 && s[j].id.len() == 0 {
            if a[i].id == a[j].id {
                lemma_dec_str_injective((i + 1) as nat, (j + 1) as nat);
            }
        } else if s[i].id.len() == 0 {
            assert(!light_id_taken(s, dec_str((i + 1) as nat)));
            assert(s[j].id != dec_str((i + 1) as nat));
        } else if s[j].id.len() == 0 {
            assert(!light_id_taken(s, dec_str((j + 1) as nat)));
            assert(s[i].id != dec_str((j + 1) as nat));
        }
    }
}

/// After id assignment every entity carries a non-blank id: the ones
/// that had one keep it, the others got a numeral.
pub proof fn lemma_assigned_entity_ids_nonblank(s: Seq<MapEntityView>)
    ensures
        entity_ids_all_present(assigned_entity_ids(s)),
{
    let a = assigned_entity_ids(s);
    assert forall|i: int| 0 <= i < a.len() implies (#[trigger] a[i]).entity_id.len() > 0 by {
        if s[i].entity_id.len() == 0 {
            lemma_dec_str_nonempty((i + 1) as nat);
        }
    }
}

/// After id assignment every shape carries a non-blank id.
pub proof fn lemma_assigned_shape_ids_nonblank(s: Seq<MapShapeView>)
    ensures
        shape_ids_all_present(assigned_shape_ids(s)),
{
    let a = assigned_shape_ids(s);
    assert forall|i: int| 0 <= i < a.len() implies (#[trigger] a[i]).id.len() > 0 by {
        if s[i].id.len() == 0 {
            lemma_dec_str_nonempty((i + 1) as nat);
        }
    }
}

/// After id assignment every light carries a non-blank id.
pub proof fn lemma_assigned_light_ids_nonblank(s: Seq<LightView>)
    ensures
        light_ids_all_present(assigned_light_ids(s)),
{
    let a = assigned_light_ids(s);
    assert forall|i: int| 0 <= i < a.len() implies (#[trigger] a[i]).id.len() > 0 by {
        if s[i].id.len() == 0 {
            lemma_dec_str_nonempty((i + 1) as nat);
        }
    }
}

proof fn lemma_find_entity_self(l: Seq<MapEntityView>, i: int)
    requires
        0 <= i < l.len(),
        entity_ids_unique(l),
    ensures
        find_entity(l, l[i].entity_id) == Some(l[i]),
    decreases l.len(),
{
    if i == 0 {
        assert(l[0].entity_id == l[i].entity_id);
    } else {
        assert(l[0].entity_id != l[i].entity_id);
        let t = l.drop_first();
        assert forall|a: int, b: int| 0 <= a < b < t.len() implies (#[trigger] t[a]).entity_id != (
        #[trigger] t[b]).entity_id by {
            assert(t[a] == l[a + 1]);
            assert(t[b] == l[b + 1]);
        }
        assert(t[i - 1] == l[i]);
        lemma_find_entity_self(t, i - 1);
    }
}

proof fn lemma_entity_self_prefix(l: Seq<MapEntityView>, m: int)
    requires
        0 <= m <= l.len(),
        entity_ids_unique(l),
    ensures
        entity_update_changes(Some(l), l.take(m)) == Seq::<MapChangeView>::empty(),
    decreases m,
{
    if m == 0 {
        assert(l.take(0).len() == 0);
    } else {
        lemma_entity_self_prefix(l, m - 1);
        let t = l.take(m);
        assert(t.drop_last() =~= l.take(m - 1));
        assert(t.last() == l[m - 1]);
        lemma_find_entity_self(l, m - 1);
        assert(entity_update_changes(Some(l), t) =~= Seq::<MapChangeView>::empty());
    }
}

proof fn lemma_find_template_self(l: Seq<MapTemplateView>, i: int)
    requires
        0 <= i < l.len(),
        template_names_unique(l),
    ensures
        find_template(l, l[i].name) == Some(l[i]),
    decreases l.len(),
{
    if i == 0 {
        assert(l[0].name == l[i].name);
    } else {
        assert(l[0].name != l[i].name);
        let t = l.drop_first();
        assert forall|a: int, b: int| 0 <= a < b < t.len() implies (#[trigger] t[a]).name != (
        #[trigger] t[b]).name by {
            assert(t[a] == l[a + 1]);
            assert(t[b] == l[b + 1]);
        }
        assert(t[i - 1] == l[i]);
        lemma_find_template_self(t, i - 1);
    }
}

proof fn lemma_template_self_prefix(l: Seq<MapTemplateView>, m: int)
    requires
        0 <= m <= l.len(),
        template_names_unique(l),
    ensures
        template_update_changes(Some(l), l.take(m)) == Seq::<MapChangeView>::empty(),
    decreases m,
{
    if m == 0 {
        assert(l.take(0).len() == 0);
    } else {
        lemma_template_self_prefix(l, m - 1);
        let t = l.take(m);
        assert(t.drop_last() =~= l.take(m - 1));
        assert(t.last() == l[m - 1]);
        lemma_find_template_self(l, m - 1);
        assert(template_update_changes(Some(l), t) =~= Seq::<MapChangeView>::empty());
    }
}

proof fn lemma_find_shape_self(l: Seq<MapShapeView>, i: int)
    requires
        0 <= i < l.len(),
        shape_ids_unique(l),
    ensures
        find_shape(l, l[i].id) == Some(l[i]),
    decreases l.len(),
{
    if i == 0 {
        assert(l[0].id == l[i].id);
    } else {
        assert(l[0].id != l[i].id);
        let t = l.drop_first();
        assert forall|a: int, b: int| 0 <= a < b < t.len() implies (#[trigger] t[a]).id != (
        #[trigger] t[b]).id by {
            assert(t[a] == l[a + 1]);
            assert(t[b] == l[b + 1]);
        }
        assert(t[i - 1] == l[i]);
        lemma_find_shape_self(t, i - 1);
    }
}

proof fn lemma_shape_self_prefix(l: Seq<MapShapeView>, m: int)
    requires
        0 <= m <= l.len(),
        shape_ids_unique(l),
    ensures
        shape_update_changes(Some(l), l.take(m)) == Seq::<MapChangeView>::empty(),
    decreases m,
{
    if m == 0 {
        assert(l.take(0).len() == 0);
    } else {
        lemma_shape_self_prefix(l, m - 1);
        let t = l.take(m);
        assert(t.drop_last() =~= l.take(m - 1));
        assert(t.last() == l[m - 1]);
        lemma_find_shape_self(l, m - 1);
        assert(shape_update_changes(Some(l), t) =~= Seq::<MapChangeView>::empty());
    }
}

proof fn lemma_find_light_self(l: Seq<LightView>, i: int)
    requires
        0 <= i < l.len(),
        light_ids_unique(l),
    ensures
        find_light(l, l[i].id) == Some(l[i]),
    decreases l.len(),
{
    if i == 0 {
        assert(l[0].id == l[i].id);
    } else {
        assert(l[0].id != l[i].id);
        let t = l.drop_first();
        assert forall|a: int, b: int| 0 <= a < b < t.len() implies (#[trigger] t[a]).id != (
        #[trigger] t[b]).id by {
            assert(t[a] == l[a + 1]);
            assert(t[b] == l[b + 1]);
        }
        assert(t[i - 1] == l[i]);
        lemma_find_light_self(t, i - 1);
    }
}

proof fn lemma_light_self_prefix(l: Seq<LightView>, m: int)
    requires
        0 <= m <= l.len(),
        light_ids_unique(l),
    ensures
        light_update_changes(Some(l), l.take(m)) == Seq::<MapChangeView>::empty(),
    decreases m,
{
    if m == 0 {
        assert(l.take(0).len() == 0);
    } else {
        lemma_light_self_prefix(l, m - 1);
        let t = l.take(m);
        assert(t.drop_last() =~= l.take(m - 1));
        assert(t.last() == l[m - 1]);
        lemma_find_light_self(l, m - 1);
        assert(light_update_changes(Some(l), t) =~= Seq::<MapChangeView>::empty());
    }
}

/// A map diffed against itself emits nothing: when every section is
/// present, every entity, shape and light already carries an id, and
/// no id or template name is repeated, the diff of a map against an
/// identical one is empty.
pub proof fn lemma_unchanged_map_emits_nothing(
    m: GameMapView,
    es: Seq<MapEntityView>,
    ts: Seq<MapTemplateView>,
    ss: Seq<MapShapeView>,
    ls: Seq<LightView>,
)
    requires
        m.entities == Some(es),
        m.templates == Some(ts),
        m.shapes == Some(ss),
        m.lights == Some(ls),
        m.ambient_light is Some,
        m.camera is Some,
        entity_ids_all_present(es),
        entity_ids_unique(es),
        template_names_unique(ts),
        shape_ids_all_present(ss),
        shape_ids_unique(ss),
        light_ids_all_present(ls),
        light_ids_unique(ls),
    ensures
        all_changes(m, m) == Seq::<MapChangeView>::empty(),
{
    assert(assigned_entity_ids(es) =~= es);
    assert(es.take(es.len() as int) =~= es);
    lemma_entity_self_prefix(es, es.len() as int);
    assert(ts.take(ts.len() as int) =~= ts);
    lemma_template_self_prefix(ts, ts.len() as int);
    assert(assigned_shape_ids(ss) =~= ss);
    assert(ss.take(ss.len() as int) =~= ss);
    lemma_shape_self_prefix(ss, ss.len() as int);
    assert(assigned_light_ids(ls) =~= ls);
    assert(ls.take(ls.len() as int) =~= ls);
    lemma_light_self_prefix(ls, ls.len() as int);
    assert(all_changes(m, m) =~= Seq::<MapChangeView>::empty());
}

/// Runs the diff after checking that it is defined for these two
/// maps: a section missing from both, or a blank id whose fresh
/// numeral is already taken, yield `None` and leave the new map
/// untouched.
pub fn try_emit_changes(last_map: &GameMap, new_map: &mut GameMap) -> (r: Option<Vec<MapChange>>)
    ensures
        r is Some <==> diff_defined(last_map.deep_view(), old(new_map).deep_view()),
        match r {
            Some(changes) => {
                &&& final(new_map).deep_view() == assigned_map(old(new_map).deep_view())
                &&& changes.deep_view() == all_changes(
                    last_map.deep_view(),
                    old(new_map).deep_view(),
                )
            },
            None => *final(new_map) == *old(new_map),
        },
{
    let sections_ok = {
        let entities_ok = new_map.entities.is_some() || last_map.entities.is_some();
        let templates_ok = new_map.templates.is_some() || last_map.templates.is_some();
        let shapes_ok = new_map.shapes.is_some() || last_map.shapes.is_some();
        let lights_ok = new_map.lights.is_some() || last_map.lights.is_some();
        entities_ok && templates_ok && shapes_ok && lights_ok
    };
    if !sections_ok {
        return None;
    }
    let entity_assign_ok = match &new_map.entities {
        Some(es) => entity_ids_ok(es),
        None => true,
    };
    if !entity_assign_ok {
        return None;
    }
    let shape_assign_ok = match &new_map.shapes {
        Some(ss) => shape_ids_ok(ss),
        None => true,
    };
    if !shape_assign_ok {
        return None;
    }
    let light_assign_ok = match &new_map.lights {
        Some(ls) => light_ids_ok(ls),
        None => true,
    };
    if !light_assign_ok {
        return None;
    }
    Some(emit_changes(last_map, new_map))
}

} // verus!
