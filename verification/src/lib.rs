//! Cross-platform model of global keyboard and mouse input: canonical event
//! types, per-platform keycode tables, a keyboard-layout resolver, decode of
//! raw OS event buffers, and planners that turn canonical events into the
//! records each platform's injection primitive consumes.

pub mod hook;
pub mod layout;
pub mod linux;
pub mod macos;
mod rdev;
pub mod stream;
pub mod windows;

pub use crate::linux::keyboard::Keyboard;
pub use crate::linux::wayland::common::display_size;
pub use crate::rdev::Button;
pub use crate::rdev::DisplayError;
pub use crate::rdev::Event;
pub use crate::rdev::EventType;
pub use crate::rdev::GrabError;
pub use crate::rdev::Key;
pub use crate::rdev::KeyboardState;
pub use crate::rdev::ListenError;
pub use crate::rdev::SimulateError;
