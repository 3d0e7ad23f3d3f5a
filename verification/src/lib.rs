//! Rules, data and state machines of a tower-defense game: waves, economy, progression.
pub mod components;
pub mod data;
pub mod resources;
pub mod save;
pub mod states;
pub mod systems;
pub mod ui;
