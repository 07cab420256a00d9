//! The Windows backend: the virtual-key table, decode of low-level hook
//! payloads, the layout resolver state, and injection planning.

pub mod common;
pub mod keyboard;
pub mod keycodes;
pub mod simulate;
