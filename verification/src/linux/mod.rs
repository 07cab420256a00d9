//! The Linux backends: keycode table, capture decode, layout resolver and
//! injection planning for the X server, and the evdev-based machinery used
//! on Wayland.

pub mod common;
pub mod keyboard;
pub mod keycodes;
pub mod simulate;
pub mod wayland;
