//! The macOS keyboard resolver: shift and caps-lock latches folded into the
//! Carbon modifier state, translation of event-tap flag masks into that
//! state, and resolution of a virtual keycode against the reference layout.

use vstd::prelude::*;

use crate::layout;
use crate::macos::keycodes::code_from_key;
use crate::macos::keycodes::key_from_code;
use crate::macos::keycodes::spec_key_from_code;
use crate::rdev::EventType;
use crate::rdev::Key;
use crate::rdev::KeyboardState;

verus! {

/// The event-flag bit of caps-lock.
pub const FLAG_CAPS_LOCK: u64 = 0x10000;

/// The event-flag bit of shift.
pub const FLAG_SHIFT: u64 = 0x20000;

/// The event-flag bit of control.
pub const FLAG_CONTROL: u64 = 0x40000;

/// The event-flag bit of the option key.
pub const FLAG_OPTION: u64 = 0x80000;

/// The event-flag bit of the command key.
pub const FLAG_COMMAND: u64 = 0x100000;

/// The Carbon modifier state an event-flag mask translates to: command in
/// bit zero, caps-lock and shift folded into bit one, option in bit three,
/// control in bit four.
pub open spec fn spec_flags_to_state(flags: u64) -> u32 {
    ((if flags & FLAG_OPTION != 0 {
        8u32
    } else {
        0
    }) + (if flags & FLAG_CAPS_LOCK != 0 {
        2u32
    } else {
        0
    }) + (if flags & FLAG_CONTROL != 0 {
        16u32
    } else {
        0
    }) + (if flags & FLAG_SHIFT != 0 {
        2u32
    } else {
        0
    }) + (if flags & FLAG_COMMAND != 0 {
        1u32
    } else {
        0
    })) as u32
}

/// Translates an event-flag mask into the Carbon modifier state.
pub fn flags_to_state(flags: u64) -> (r: u32)
    ensures
        r == spec_flags_to_state(flags),
{
    let mut modifier: u32 = 0;
    if flags & FLAG_OPTION != 0 {
        modifier += 8;
    }
    if flags & FLAG_CAPS_LOCK != 0 {
        modifier += 2;
    }
    if flags & FLAG_CONTROL != 0 {
        modifier += 16;
    }
    if flags & FLAG_SHIFT != 0 {
        modifier += 2;
    }
    if flags & FLAG_COMMAND != 0 {
        modifier += 1;
    }
    modifier
}

/// The character a virtual keycode resolves to under a Carbon modifier
/// state: keycodes beyond the virtual-keycode range resolve to nothing, the
/// rest are looked up on the reference layout with bit one as the shift
/// level. Caps-lock is already folded into that bit, as the OS resolver
/// folds it, so it shifts every key here.
pub open spec fn spec_string_from_code(code: i64, modifier_state: u32) -> Option<char> {
    if 0 <= code <= 0xffff {
        layout::spec_resolve_char(
            spec_key_from_code(code as u16),
            modifier_state & 2 != 0,
            false,
        )
    } else {
        None
    }
}

/// The latched session state: the shift level, the caps-lock toggle, and
/// whether resolution may run directly on the calling thread. The reference
/// layout composes no dead keys, so the opaque dead-key slot of the OS
/// resolver stays empty and `reset` merely confirms it.
pub struct SessionState {
    pub is_main_thread: bool,
    pub shift: bool,
    pub caps_lock: bool,
}

/// The state of a fresh session.
pub open spec fn spec_initial_state() -> SessionState {
    SessionState { is_main_thread: true, shift: false, caps_lock: false }
}

/// The Carbon modifier state of the latched modifiers: shift and caps-lock
/// fold into the shift bit.
pub open spec fn spec_modifier_state(s: SessionState) -> u32 {
    if s.caps_lock || s.shift {
        2u32
    } else {
        0
    }
}

/// How one event advances the latches: shift presses and releases set and
/// clear the level, a caps-lock press flips the toggle.
pub open spec fn spec_add_state(s: SessionState, e: EventType) -> SessionState {
    match e {
        EventType::KeyPress(Key::ShiftLeft) | EventType::KeyPress(Key::ShiftRight) => SessionState {
            shift: true,
            ..s
        },
        EventType::KeyPress(Key::CapsLock) => SessionState { caps_lock: !s.caps_lock, ..s },
        EventType::KeyRelease(Key::ShiftLeft)
        | EventType::KeyRelease(Key::ShiftRight) => SessionState { shift: false, ..s },
        _ => s,
    }
}

/// The character one event resolves to in a given session state.
pub open spec fn spec_add_name(s: SessionState, e: EventType) -> Option<char> {
    match e {
        EventType::KeyPress(Key::ShiftLeft)
        | EventType::KeyPress(Key::ShiftRight)
        | EventType::KeyPress(Key::CapsLock) => None,
        EventType::KeyPress(key) => match crate::macos::keycodes::spec_code_from_key(key) {
            Some(code) => spec_string_from_code(code as i64, spec_modifier_state(s)),
            None => None,
        },
        _ => None,
    }
}

/// A keyboard session resolving keypresses against the reference layout
/// while latching shift and caps-lock.
pub struct Keyboard {
    state: SessionState,
}

impl Keyboard {
    /// The latched state, for contracts.
    pub closed spec fn view_state(&self) -> SessionState {
        self.state
    }

    pub fn new() -> (r: Option<Keyboard>)
        ensures
            r matches Some(k) && k.view_state() == spec_initial_state(),
    {
        Some(Keyboard { state: SessionState { is_main_thread: true, shift: false, caps_lock: false } })
    }

    /// Records whether resolution runs on the calling thread; the resolution
    /// itself is unaffected.
    pub fn set_is_main_thread(&mut self, b: bool)
        ensures
            final(self).view_state() == (SessionState {
                is_main_thread: b,
                ..old(self).view_state()
            }),
    {
        self.state.is_main_thread = b;
    }

    /// The Carbon modifier state of the latched modifiers.
    pub fn modifier_state(&self) -> (r: u32)
        ensures
            r == spec_modifier_state(self.view_state()),
    {
        if self.state.caps_lock || self.state.shift {
            2
        } else {
            0
        }
    }

    /// Resolves a virtual keycode under an explicit Carbon modifier state.
    pub fn string_from_code(&self, code: i64, modifier_state: u32) -> (r: Option<String>)
        ensures
            r is Some <==> spec_string_from_code(code, modifier_state) is Some,
            r matches Some(s) ==> s@ == seq![spec_string_from_code(code, modifier_state)->0],
    {
        if 0 <= code && code <= 0xffff {
            let key = key_from_code(code as u16);
            layout::resolve_string(key, modifier_state & 2 != 0, false)
        } else {
            None
        }
    }

    /// Resolves a virtual keycode under an event-flag mask, as the capture
    /// engine does for each keypress it decodes.
    pub fn create_string_for_key(&self, code: i64, flags: u64) -> (r: Option<String>)
        ensures
            r is Some <==> spec_string_from_code(code, spec_flags_to_state(flags)) is Some,
            r matches Some(s) ==> s@ == seq![
                spec_string_from_code(code, spec_flags_to_state(flags))->0,
            ],
    {
        let modifier_state = flags_to_state(flags);
        self.string_from_code(code, modifier_state)
    }

    /// Advances the latches as if `event_type` happened and resolves the
    /// text it produces. Modifier presses and all releases resolve to
    /// nothing; a release never resolves.
    pub fn add(&mut self, event_type: &EventType) -> (r: Option<String>)
        ensures
            final(self).view_state() == spec_add_state(old(self).view_state(), *event_type),
            r is Some <==> spec_add_name(old(self).view_state(), *event_type) is Some,
            r matches Some(s) ==> s@ == seq![
                spec_add_name(old(self).view_state(), *event_type)->0,
            ],
            event_type matches EventType::KeyRelease(_) ==> r is None,
    {
        match event_type {
            EventType::KeyPress(key) => match key {
                Key::ShiftLeft | Key::ShiftRight => {
                    self.state.shift = true;
                    None
                },
                Key::CapsLock => {
                    self.state.caps_lock = !self.state.caps_lock;
                    None
                },
                key => {
                    match code_from_key(*key) {
                        Some(code) => {
                            let modifier_state = self.modifier_state();
                            self.string_from_code(code as i64, modifier_state)
                        },
                        None => None,
                    }
                },
            },
            EventType::KeyRelease(key) => match key {
                Key::ShiftLeft | Key::ShiftRight => {
                    self.state.shift = false;
                    None
                },
                _ => None,
            },
            _ => None,
        }
    }

    /// Clears the latches as if the session were newly constructed; the
    /// thread mark is kept.
    pub fn reset(&mut self)
        ensures
            final(self).view_state() == (SessionState {
                is_main_thread: old(self).view_state().is_main_thread,
                shift: false,
                caps_lock: false,
            }),
    {
        self.state.shift = false;
        self.state.caps_lock = false;
    }
}

impl KeyboardState for Keyboard {
    fn add(&mut self, event_type: &EventType) -> Option<String> {
        Keyboard::add(self, event_type)
    }

    fn reset(&mut self) {
        Keyboard::reset(self);
    }
}

/// Marks whether the capture loop runs on the process's main thread, on the
/// given session.
pub fn set_is_main_thread(keyboard: &mut Keyboard, b: bool)
    ensures
        final(keyboard).view_state() == (SessionState {
            is_main_thread: b,
            ..old(keyboard).view_state()
        }),
{
    keyboard.set_is_main_thread(b);
}

} // verus!
