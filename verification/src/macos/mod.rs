//! The macOS backend: the virtual-keycode table, decode of event-tap fields,
//! the layout resolver state, and injection planning.

pub mod common;
pub mod keyboard;
pub mod keycodes;
pub mod simulate;
