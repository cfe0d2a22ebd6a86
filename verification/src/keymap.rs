//! The key bindings: which key or mouse button drives which action.
use vstd::prelude::*;

verus! {

/// A bindable key or mouse button. `Unbound` stands for an action
/// with no key.
#[derive(Clone, Copy, Debug, PartialEq, Eq, Structural)]
pub enum KeymapKey {
    MouseLeft,
    MouseRight,
    W,
    A,
    S,
    D,
    Space,
    LShift,
    Ctrl,
    Key1,
    Key2,
    Key3,
    Key4,
    Key5,
    Unbound,
}

impl Default for KeymapKey {
    /// An action starts unbound.
    fn default() -> (r: Self)
        ensures
            r == KeymapKey::Unbound,
    {
        Self::Unbound
    }
}

/// One key per action of the game.
#[derive(Clone, Copy, Debug, PartialEq, Eq, Structural)]
pub struct Keymap {
    pub move_forward: KeymapKey,
    pub move_backward: KeymapKey,
    pub move_left: KeymapKey,
    pub move_right: KeymapKey,
    pub attack_1: KeymapKey,
    pub weapon_special_function: KeymapKey,
    pub inventory_1: KeymapKey,
    pub inventory_2: KeymapKey,
    pub inventory_3: KeymapKey,
    pub inventory_4: KeymapKey,
    pub inventory_5: KeymapKey,
    pub jump: KeymapKey,
    pub run: KeymapKey,
    pub crouch: KeymapKey,
}

impl Default for Keymap {
    /// The stock bindings: WASD movement, mouse attack, number keys
    /// for the inventory, space to jump, shift to run, ctrl to
    /// crouch.
    fn default() -> (r: Self)
        ensures
            r == (Keymap {
                move_forward: KeymapKey::W,
                move_backward: KeymapKey::S,
                move_left: KeymapKey::A,
                move_right: KeymapKey::D,
                attack_1: KeymapKey::MouseLeft,
                weapon_special_function: KeymapKey::MouseRight,
                inventory_1: KeymapKey::Key1,
                inventory_2: KeymapKey::Key2,
                inventory_3: KeymapKey::Key3,
                inventory_4: KeymapKey::Key4,
                inventory_5: KeymapKey::Key5,
                jump: KeymapKey::Space,
                run: KeymapKey::LShift,
                crouch: KeymapKey::Ctrl,
            }),
    {
        Keymap {
            move_forward: KeymapKey::W,
            move_backward: KeymapKey::S,
            move_left: KeymapKey::A,
            move_right: KeymapKey::D,
            attack_1: KeymapKey::MouseLeft,
            weapon_special_function: KeymapKey::MouseRight,
            inventory_1: KeymapKey::Key1,
            inventory_2: KeymapKey::Key2,
            inventory_3: KeymapKey::Key3,
            inventory_4: KeymapKey::Key4,
            inventory_5: KeymapKey::Key5,
            jump: KeymapKey::Space,
            run: KeymapKey::LShift,
            crouch: KeymapKey::Ctrl,
        }
    }
}

} // verus!
