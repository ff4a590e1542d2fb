//! A tile map, movable glyphs and the per-frame logic of a small roguelike.
//!
//! Everything here is pure: the window, the keyboard and the display are
//! driven from outside, which hands key events in and copies the composed
//! off-screen canvas out.

pub mod color;
pub mod canvas;
pub mod input;
pub mod map;
pub mod object;
pub mod render;
pub mod world;

pub use color::{black, color_dark_ground, color_dark_wall, white, yellow, Rgb};
pub use canvas::{Canvas, Cell};
pub use input::{handle_keys, Key, KeyAction, KeyCode};
pub use map::{make_map, Game, Tile, MAP_HEIGHT, MAP_WIDTH};
pub use object::Object;
pub use render::render;
pub use world::{LoopState, World, START_X, START_Y};
