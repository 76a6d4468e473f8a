//! The fixed numbers of the game.

use vstd::prelude::*;

verus! {

/// Most characters other than players that a level holds.
pub const MAX_N_NPCS: usize = 12;

pub const TILE_WIDTH_PX: i32 = 5;

pub const TILE_HEIGHT_PX: i32 = 5;

/// Tiles along each side of a chunk.
pub const CHUNK_SIDE_TILES: u32 = 32;

/// Chunks stacked on top of each other in every level.
pub const MAP_ROWS_OF_CHUNKS: u32 = 2;

/// Most chunks side by side in a level.
pub const MAX_COLS_OF_CHUNKS: u32 = 8;

/// Tiles from the top of a level to its bottom.
pub const MAP_HEIGHT_TILES: i32 = 64;

/// The world's extent in pixels. Characters and the camera stay inside it.
pub const X_LEFT_BOUND: i32 = 0;

pub const X_RIGHT_BOUND: i32 = 1280;

pub const Y_LOWER_BOUND: i32 = 0;

pub const Y_UPPER_BOUND: i32 = 320;

/// Frames on the clock when a game begins.
pub const COUNTDOWN_TIMER_START: i32 = 3600;

/// The clock never shows more than this many frames.
pub const COUNTDOWN_TIMER_MAX: i32 = 5999;

pub const START_DIFFICULTY_LEVEL: u32 = 1;

pub const LEVELS_PER_MOOD: u32 = 3;

pub const N_MOODS: u32 = 4;

/// Clearing this level wins the game.
pub const FINAL_LEVEL: u32 = LEVELS_PER_MOOD * N_MOODS;

pub const MAJOR_VERSION: u32 = 1;

pub const MINOR_VERSION: u32 = 2;

pub const INCR_VERSION: u32 = 0;

/// Button presses count on the title screen from this frame on.
pub const TIMER_INTERACTIVE_START: u32 = 100;

/// Width of the title image on its spritesheet.
pub const TITLE_WIDTH: u32 = 152;

} // verus!
