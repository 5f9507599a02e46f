//! Space Wurm: a grid-based creature simulation with a software rasterizer.
//!
//! The library holds the per-frame simulation and render pipeline: time-stepped
//! state updates, body-segment movement, collision and food resolution, sprite
//! animation state machines, and a pixel-buffer compositor with alpha blending.
//! Windowing, audio and asset decoding live outside the library; they hand in
//! plain values (pressed keys, decoded pixel data, a millisecond clock).

pub mod background;
pub mod collision;
pub mod constants;
pub mod core_logic;
pub mod event_loop;
pub mod food;
pub mod game_over;
pub mod input;
pub mod movement;
pub mod perks;
pub mod snake;
pub mod sprites;
pub mod structs;
pub mod symbols;
pub mod update_graphics;
