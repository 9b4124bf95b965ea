//! Immediate-mode batched 2D painter with verified batching rules, the draw
//! descriptors built on it, and the CHIP-8 machine, games, display and
//! command line of the console around it.

pub mod anim;
pub mod cli;
pub mod emu;
pub mod game_display;
pub mod icon;
pub mod math;
pub mod merge;
pub mod number;
pub mod painter;
pub mod scoloc;
pub mod sprite;
pub mod state;
pub mod state_leds;
pub mod text;
pub mod timer;
pub mod tooltip;
pub mod uniforms;
