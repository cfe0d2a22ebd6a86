//! The running game's own types: grid points and navigation meshes,
//! movement intent, the live state of a spawned entity, animation
//! requests, patrol cycles and player-id bookkeeping.
use vstd::prelude::*;

use crate::map::Scalar;
use crate::map::Weapon;

verus! {

/// A point of the navigation grid.
#[derive(Clone, Copy, Debug, Eq, Hash, Ord, PartialEq, PartialOrd, Structural)]
pub struct Point {
    pub x: i32,
    pub z: i32,
    pub y: i32,
}

/// One rectangle of the navigation mesh, by its four corners.
pub struct NavigationMeshComponent {
    pub left_up: Point,
    pub right_down: Point,
    pub right_up: Point,
    pub left_down: Point,
}

/// Direction of one wish to move, as four independent flags.
#[derive(Clone, Copy, Debug, PartialEq, Eq, Structural)]
pub struct MoveIntent {
    pub move_forward: bool,
    pub move_backward: bool,
    pub move_leftward: bool,
    pub move_rightward: bool,
}

impl MoveIntent {
    /// True exactly when at least one of the four flags is set.
    pub open spec fn spec_is_moving(&self) -> bool {
        self.move_forward || self.move_backward || self.move_leftward || self.move_rightward
    }
}

impl Default for MoveIntent {
    /// No wish to move in any direction.
    fn default() -> (r: Self)
        ensures
            r == (MoveIntent {
                move_forward: false,
                move_backward: false,
                move_leftward: false,
                move_rightward: false,
            }),
    {
        MoveIntent {
            move_forward: false,
            move_backward: false,
            move_leftward: false,
            move_rightward: false,
        }
    }
}

/// A request to start playing a named animation of an asset.
#[derive(Debug, PartialEq)]
pub struct StartAnimation {
    pub asset: String,
    pub animation: String,
    pub repeat: bool,
}

pub ghost struct StartAnimationView {
    pub asset: Seq<char>,
    pub animation: Seq<char>,
    pub repeat: bool,
}

impl DeepView for StartAnimation {
    type V = StartAnimationView;

    open spec fn deep_view(&self) -> StartAnimationView {
        StartAnimationView {
            asset: self.asset.deep_view(),
            animation: self.animation.deep_view(),
            repeat: self.repeat,
        }
    }
}

/// The animation an entity is currently playing.
#[derive(Debug, PartialEq)]
pub struct CurrentAnimation {
    pub asset: String,
    pub animation: String,
    pub repeat: bool,
}

/// A request to stop the playing animation.
pub struct StopAnimation;

/// The live state of one spawned game entity. Real-valued state
/// (health, view angles) is carried as opaque scalars; the logic here
/// only stores and compares it.
pub struct GameEntity {
    pub entity_id: String,
    pub template: String,
    pub current_weapon: usize,
    pub weapons: Vec<Weapon>,
    pub asset: Option<String>,
    pub idle_animation: Option<String>,
    pub walk_animation: Option<String>,
    pub jump_animation: Option<String>,
    pub run_animation: Option<String>,
    pub reload_animation: Option<String>,
    pub shoot_animation: Option<String>,
    pub max_health: Scalar,
    pub curr_health: Scalar,
    pub move_intent: MoveIntent,
    pub yaw: Scalar,
    pub pitch: Scalar,
    pub npc: bool,
    pub attacking: bool,
    pub running: bool,
}

impl GameEntity {
    /// Whether the entity wishes to move in some direction.
    pub fn is_moving(&self) -> (r: bool)
        ensures
            r == self.move_intent.spec_is_moving(),
    {
        self.move_intent.move_forward || self.move_intent.move_backward
            || self.move_intent.move_leftward || self.move_intent.move_rightward
    }
}

/// A patrol route: the targets visited in turn, and which comes next.
pub struct MoveCycle {
    pub current: usize,
    pub targets: Vec<Point>,
}

impl MoveCycle {
    /// The target to move to now; the cycle advances by one and wraps
    /// around at the end.
    pub fn get_next(&mut self) -> (next: Point)
        requires
            old(self).current < old(self).targets@.len(),
        ensures
            next == old(self).targets@[old(self).current as int],
            final(self).targets == old(self).targets,
            final(self).current == (old(self).current + 1) % (old(self).targets@.len() as int),
    {
        let n = self.targets.len();
        let next = self.targets[self.current].clone();
        self.current = (self.current + 1) % n;
        next
    }
}

/// Relies on str's `==`: true exactly when the characters are equal.
#[verifier::external_body]
fn str_eq(a: &str, b: &str) -> (r: bool)
    ensures
        r == (a@ == b@),
{
    a == b
}

/// Hands out one small numeric id per entity, first come first
/// served, and the same id again for the same entity.
pub struct PlayerIds {
    player_ids: Vec<(String, u8)>,
}

impl View for PlayerIds {
    type V = Seq<(Seq<char>, u8)>;

    closed spec fn view(&self) -> Seq<(Seq<char>, u8)> {
        self.player_ids.deep_view()
    }
}

/// Whether some registered entity carries this name.
pub open spec fn player_registered(ids: Seq<(Seq<char>, u8)>, entity_id: Seq<char>) -> bool {
    exists|i: int| 0 <= i < ids.len() && (#[trigger] ids[i]).0 == entity_id
}

impl PlayerIds {
    /// Entities are registered once each, and ids count up from zero
    /// in registration order, wrapping at 256.
    pub open spec fn wf(&self) -> bool {
        &&& forall|i: int, j: int|
            0 <= i < j < self@.len() ==> (#[trigger] self@[i]).0 != (#[trigger] self@[j]).0
        &&& forall|i: int| 0 <= i < self@.len() ==> (#[trigger] self@[i]).1 == (i % 256) as u8
    }

    /// No entity registered yet.
    pub fn new() -> (r: PlayerIds)
        ensures
            r.wf(),
            r@.len() == 0,
    {
        let r = PlayerIds { player_ids: Vec::new() };
        proof {
            assert(r@ =~= Seq::<(Seq<char>, u8)>::empty());
        }
        r
    }

    /// The id already handed out for this entity, or the next free
    /// one, which is then remembered.
    pub fn provide_player_id(&mut self, entity_id: &str) -> (r: u8)
        requires
            old(self).wf(),
        ensures
            final(self).wf(),
            if player_registered(old(self)@, entity_id@) {
                &&& final(self)@ == old(self)@
                &&& exists|i: int|
                    0 <= i < old(self)@.len() && (#[trigger] old(self)@[i]).0 == entity_id@ && r
                        == old(self)@[i].1
            } else {
                &&& r == (old(self)@.len() % 256) as u8
                &&& final(self)@ == old(self)@.push((entity_id@, r))
            },
    {
        let n = self.player_ids.len();
        let mut i: usize = 0;
        while i < n
            invariant
                n == self.player_ids@.len(),
                n == self@.len(),
                i <= n,
                self == old(self),
                old(self).wf(),
                forall|k: int| 0 <= k < i ==> (#[trigger] self@[k]).0 != entity_id@,
            decreases n - i,
        {
            if str_eq(self.player_ids[i].0.as_str(), entity_id) {
                proof {
                    assert((self@[i as int]).0 == self.player_ids@[i as int].0@);
                    assert((self@[i as int]).1 == self.player_ids@[i as int].1);
                    assert(player_registered(self@, entity_id@));
                }
                return self.player_ids[i].1;
            }
            i += 1;
        }
        proof {
            assert(!player_registered(self@, entity_id@));
        }
        let player_id = (self.player_ids.len() % 256) as u8;
        let ghost before = self@;
        self.player_ids.push((entity_id.to_owned(), player_id));
        proof {
            assert(self@ =~= before.push((entity_id@, player_id)));
            let s = self@;
            assert forall|i: int, j: int| 0 <= i < j < s.len() implies (#[trigger] s[i]).0 != (
            #[trigger] s[j]).0 by {
                if j == s.len() - 1 {
                    assert(s[i] == before[i]);
                    assert(s[j].0 == entity_id@);
                } else {
                    assert(s[i] == before[i]);
                    assert(s[j] == before[j]);
                }
            }
            assert forall|i: int| 0 <= i < s.len() implies (#[trigger] s[i]).1 == (i % 256) as u8 by {
                if i == s.len() - 1 {
                    assert(s[i].1 == player_id);
                } else {
                    assert(s[i] == before[i]);
                }
            }
        }
        player_id
    }
}

} // verus!
