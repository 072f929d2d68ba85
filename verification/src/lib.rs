//! Game logic for a terminal side-scrolling obstacle-dodge runner.
//!
//! The character runs along a ground line, jumps over obstacles that scroll
//! in from the right, and the game ends on collision. Everything that
//! decides the game — jump physics, obstacle movement and spawning,
//! collision, scoring and the one-way speed boost — lives here with a
//! verified contract; terminal input and output stay outside.

use vstd::prelude::*;

pub mod dino;
pub mod game;
pub mod render;
pub mod spawn;

verus! {

/// Width of the playing field in columns.
pub const SCREEN_WIDTH: u16 = 60;

/// Height of the playing field in rows.
pub const SCREEN_HEIGHT: u16 = 15;

/// Row of the running surface; the ground line is drawn one row below.
pub const GROUND_Y: u16 = SCREEN_HEIGHT - 3;

/// Fixed column where the character stands.
pub const DINO_X_POS: u16 = 5;

/// Fewest ticks between one obstacle spawn and the next.
pub const OBSTACLE_MIN_SPAWN_GAP_FRAMES: u16 = 25;

/// Most ticks between one obstacle spawn and the next.
pub const OBSTACLE_MAX_SPAWN_GAP_FRAMES: u16 = 45;

/// Tick pacing at the start of a run, in milliseconds.
pub const DEFAULT_GAME_TICK_MS: u64 = 80;

/// Tick pacing after the speed boost, in milliseconds.
pub const FASTER_GAME_TICK_MS: u64 = 60;

/// Score at which the tick interval permanently drops.
pub const SPEED_INCREASE_THRESHOLD: u32 = 500;

} // verus!
