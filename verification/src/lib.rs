//! Core logic of a small first-person action game: the declarative map
//! (level description) model, the map hot-reload diffing that turns two
//! parsed maps into a stream of change events, grid path finding over
//! navigation meshes, key bindings, and the movement and animation
//! decision rules.
pub mod animations;
pub mod assets;
pub mod character;
pub mod character_visuals;
pub mod console_plugin;
pub mod input_handling;
pub mod keymap;
pub mod map;
pub mod map_diff;
pub mod path_finding;
pub mod player_control;
pub mod templates;
pub mod types;
