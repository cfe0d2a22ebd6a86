//! A character's animation and movement state.
use vstd::prelude::*;

verus! {

/// Whether a character is the player or a non-player character.
#[derive(Clone, Copy, PartialEq, Eq, Structural)]
pub enum CharacterType {
    You,
    Npc,
}

/// How fast a character is moving.
#[derive(Clone, Copy)]
pub enum MoveState {
    Idle,
    Walking,
    Running,
}

/// Which of a character's animations is playing.
#[derive(Clone, Copy, Debug, PartialEq, Eq, Hash, Structural)]
pub enum CurrentAnimation {
    IdleAnimation,
    WalkingAnimation,
    RunningAnimation,
    ShootingAnimation,
    ReloadAnimation,
}

impl Default for CurrentAnimation {
    /// A character starts idle.
    fn default() -> (r: Self)
        ensures
            r == CurrentAnimation::IdleAnimation,
    {
        Self::IdleAnimation
    }
}

/// The animation set and live flags of one character.
pub struct Character {
    pub asset_name: Option<String>,
    pub idle_animation: Option<String>,
    pub walking_animation: Option<String>,
    pub running_animation: Option<String>,
    pub shooting_animation: Option<String>,
    pub reload_animation: Option<String>,
    pub current_animation: CurrentAnimation,
    pub moving: bool,
    pub running: bool,
    pub reloading: bool,
    pub shooting: bool,
    pub aiming: bool,
    pub health: u32,
    pub jump: bool,
}

impl Default for Character {
    /// A character with no assets bound, idle and at zero health.
    fn default() -> (r: Self)
        ensures
            r.asset_name is None,
            r.idle_animation is None,
            r.walking_animation is None,
            r.running_animation is None,
            r.shooting_animation is None,
            r.reload_animation is None,
            r.current_animation == CurrentAnimation::IdleAnimation,
            !r.moving && !r.running && !r.reloading && !r.shooting && !r.aiming && !r.jump,
            r.health == 0,
    {
        Character {
            asset_name: None,
            idle_animation: None,
            walking_animation: None,
            running_animation: None,
            shooting_animation: None,
            reload_animation: None,
            current_animation: CurrentAnimation::IdleAnimation,
            moving: false,
            running: false,
            reloading: false,
            shooting: false,
            aiming: false,
            health: 0,
            jump: false,
        }
    }
}

} // verus!
