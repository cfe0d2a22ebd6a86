//! The animation names a character's visual representation uses.
use vstd::prelude::*;

verus! {

/// The five animations a character's model is expected to provide.
pub struct CharacterVisual {
    pub idle_animation: String,
    pub walking_animation: String,
    pub running_animation: String,
    pub shooting_animation: String,
    pub reload_animation: String,
}

} // verus!
