//! The evdev/uinput backend: keycode table, raw-record decode, the layout
//! resolver, grab conversion and injection planning over kernel input
//! events, and the compositor display query.

pub mod common;
pub mod grab;
pub mod keyboard;
pub mod keycodes;
pub mod simulate;
pub mod xkb_keycodes;
