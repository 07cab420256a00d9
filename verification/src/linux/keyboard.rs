//! The X11 keyboard resolver: modifier latches, the X modifier mask they
//! form, and resolution of a keycode under that mask against the reference
//! layout.

use vstd::prelude::*;

use crate::layout;
use crate::linux::keycodes::code_from_key;
use crate::linux::keycodes::key_from_code;
use crate::linux::keycodes::spec_key_from_code;
use crate::rdev::EventType;
use crate::rdev::Key;
use crate::rdev::KeyboardState;

verus! {

/// The X modifier-mask bit of shift.
pub const SHIFT_MASK: u32 = 1;

/// The X modifier-mask bit of caps-lock.
pub const LOCK_MASK: u32 = 2;

/// The X modifier-mask bit of control.
pub const CONTROL_MASK: u32 = 4;

/// The X modifier-mask bit of alt.
pub const MOD1_MASK: u32 = 8;

/// The X modifier-mask bit of the meta key.
pub const MOD4_MASK: u32 = 64;

/// The latched modifiers of a keyboard session.
#[derive(Debug, Copy, Clone, PartialEq, Eq, Structural)]
pub struct State {
    pub alt: bool,
    pub ctrl: bool,
    pub caps_lock: bool,
    pub shift: bool,
    pub meta: bool,
}

/// The state of a fresh session: nothing latched.
pub open spec fn spec_initial_state() -> State {
    State { alt: false, ctrl: false, caps_lock: false, shift: false, meta: false }
}

/// The X modifier mask the latched modifiers form.
pub open spec fn spec_state_value(s: State) -> u32 {
    ((if s.alt {
        MOD1_MASK
    } else {
        0
    }) + (if s.ctrl {
        CONTROL_MASK
    } else {
        0
    }) + (if s.caps_lock {
        LOCK_MASK
    } else {
        0
    }) + (if s.meta {
        MOD4_MASK
    } else {
        0
    }) + (if s.shift {
        SHIFT_MASK
    } else {
        0
    })) as u32
}

impl State {
    pub fn new() -> (r: State)
        ensures
            r == spec_initial_state(),
    {
        State { alt: false, ctrl: false, caps_lock: false, meta: false, shift: false }
    }

    /// The X modifier mask to resolve a keypress under.
    pub fn value(&self) -> (r: u32)
        ensures
            r == spec_state_value(*self),
    {
        let mut res: u32 = 0;
        if self.alt {
            res += MOD1_MASK;
        }
        if self.ctrl {
            res += CONTROL_MASK;
        }
        if self.caps_lock {
            res += LOCK_MASK;
        }
        if self.meta {
            res += MOD4_MASK;
        }
        if self.shift {
            res += SHIFT_MASK;
        }
        res
    }
}

/// The character a keycode resolves to under an X modifier mask: the decoded
/// key looked up on the reference layout, with the shift and lock bits of
/// the mask as levels.
pub open spec fn spec_name_char(keycode: u32, state_mask: u32) -> Option<char> {
    layout::spec_resolve_char(
        spec_key_from_code(keycode),
        state_mask & SHIFT_MASK != 0,
        state_mask & LOCK_MASK != 0,
    )
}

/// How one event advances the latched state: shift presses and releases set
/// and clear the shift level, a caps-lock press flips the toggle, and every
/// other event leaves the state alone.
pub open spec fn spec_add_state(s: State, e: EventType) -> State {
    match e {
        EventType::KeyPress(Key::ShiftLeft) | EventType::KeyPress(Key::ShiftRight) => State {
            shift: true,
            ..s
        },
        EventType::KeyPress(Key::CapsLock) => State { caps_lock: !s.caps_lock, ..s },
        EventType::KeyRelease(Key::ShiftLeft) | EventType::KeyRelease(Key::ShiftRight) => State {
            shift: false,
            ..s
        },
        _ => s,
    }
}

/// The character one event resolves to in a given state: only a press of a
/// mapped non-modifier key resolves, under the mask of the current state.
pub open spec fn spec_add_name(s: State, e: EventType) -> Option<char> {
    match e {
        EventType::KeyPress(Key::ShiftLeft)
        | EventType::KeyPress(Key::ShiftRight)
        | EventType::KeyPress(Key::CapsLock) => None,
        EventType::KeyPress(key) => match crate::linux::keycodes::spec_code_from_key(key) {
            Some(code) => spec_name_char(code, spec_state_value(s)),
            None => None,
        },
        _ => None,
    }
}

/// A keyboard session resolving keypresses against the reference layout
/// while tracking the modifier latches.
#[derive(Debug)]
pub struct Keyboard {
    state: State,
}

impl Keyboard {
    /// The latched state, for contracts.
    pub closed spec fn view_state(&self) -> State {
        self.state
    }

    pub fn new() -> (r: Option<Keyboard>)
        ensures
            r matches Some(k) && k.view_state() == spec_initial_state(),
    {
        Some(Keyboard { state: State::new() })
    }

    /// Resolves a raw keycode under a raw X modifier mask, independent of
    /// the latched state.
    pub fn name_from_code(&self, keycode: u32, state_mask: u32) -> (r: Option<String>)
        ensures
            r is Some <==> spec_name_char(keycode, state_mask) is Some,
            r matches Some(s) ==> s@ == seq![spec_name_char(keycode, state_mask)->0],
    {
        let key = key_from_code(keycode);
        layout::resolve_string(key, state_mask & SHIFT_MASK != 0, state_mask & LOCK_MASK != 0)
    }

    /// Advances the latches as if `event_type` happened and resolves the
    /// text it produces. Modifier presses and all releases resolve to
    /// nothing; a release never resolves.
    pub fn add(&mut self, event_type: &EventType) -> (r: Option<String>)
        ensures
            final(self).view_state() == spec_add_state(old(self).view_state(), *event_type),
            r is Some <==> spec_add_name(old(self).view_state(), *event_type) is Some,
            r matches Some(s) ==> s@ == seq![
                spec_add_name(old(self).view_state(), *event_type)->0,
            ],
            event_type matches EventType::KeyRelease(_) ==> r is None,
    {
        match event_type {
            EventType::KeyPress(key) => match key {
                Key::ShiftLeft | Key::ShiftRight => {
                    self.state.shift = true;
                    None
                },
                Key::CapsLock => {
                    self.state.caps_lock = !self.state.caps_lock;
                    None
                },
                key => {
                    match code_from_key(*key) {
                        Some(keycode) => {
                            let mask = self.state.value();
                            self.name_from_code(keycode, mask)
                        },
                        None => None,
                    }
                },
            },
            EventType::KeyRelease(key) => match key {
                Key::ShiftLeft | Key::ShiftRight => {
                    self.state.shift = false;
                    None
                },
                _ => None,
            },
            _ => None,
        }
    }

    /// Clears the latches as if the session were newly constructed.
    pub fn reset(&mut self)
        ensures
            final(self).view_state() == spec_initial_state(),
    {
        self.state = State::new();
    }
}

impl KeyboardState for Keyboard {
    fn add(&mut self, event_type: &EventType) -> Option<String> {
        Keyboard::add(self, event_type)
    }

    fn reset(&mut self) {
        Keyboard::reset(self);
    }
}

} // verus!
