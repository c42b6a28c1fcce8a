//! Decision logic of a spectator camera for Elden Ring multiplayer sessions.
//!
//! The game-facing side (hooks, memory access, floating-point camera
//! geometry) lives outside this crate; everything here works on plain
//! integers, booleans and the library's own enums, and is verified.

pub mod input;
pub mod state;
pub mod messages;
pub mod frame;
pub mod modes;
mod rng;
pub mod settings;
pub mod config;
pub mod laws;
pub mod behaviour;
