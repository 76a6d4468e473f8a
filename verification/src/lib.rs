//! Kitty game core: a deterministic per-frame simulation that turns button
//! input into a new game state and an ordered list of drawing commands.

pub mod ability_cards;
pub mod camera;
pub mod cloud;
pub mod collision;
pub mod console;
pub mod entities;
pub mod frame;
pub mod game_constants;
pub mod game_map;
pub mod game_state;
pub mod hud;
pub mod laws;
pub mod menus;
pub mod modes;
pub mod multiplatform_defs;
pub mod play;
pub mod popup_text;
pub mod render;
pub mod rng;
pub mod screens;
pub mod simulation;
pub mod spritesheet;
pub mod subpixel;
pub mod text;
pub mod validity;
pub mod walking;

pub use frame::kittygame_update;
