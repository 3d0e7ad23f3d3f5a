//! The game's per-frame rules, each as a step from state and observations to new state.
pub mod combat;
pub mod debug;
pub mod game_over;
pub mod golem;
pub mod indicators;
pub mod input;
pub mod setup;
pub mod tower_spec;
pub mod tutorial;
pub mod wave;
