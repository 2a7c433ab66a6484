//! Per-frame behaviour core of a 2D action game's characters: facing
//! resolution, animation selection, melee combat and enemy pursuit.
//!
//! Everything here works on plain values; the host engine (input devices,
//! physics, rendering, timers) feeds events in and carries the results out.
pub mod direction;
pub mod animation;
pub mod combat;
pub mod enemy;
pub mod player;
