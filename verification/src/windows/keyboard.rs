//! The Windows keyboard resolver: a 256-byte virtual-key state image whose
//! shift and caps-lock bytes the session latches, and resolution of a
//! virtual-key code under that image against the reference layout.

use vstd::prelude::*;

use crate::layout;
use crate::rdev::EventType;
use crate::rdev::Key;
use crate::rdev::KeyboardState;
use crate::windows::keycodes::code_from_key;
use crate::windows::keycodes::key_from_code;
use crate::windows::keycodes::spec_key_from_code;

verus! {

/// The virtual-key index of the shift level.
pub const VK_SHIFT: usize = 16;

/// The virtual-key index of the caps-lock toggle.
pub const VK_CAPITAL: usize = 20;

/// The virtual-key index of the left shift key.
pub const VK_LSHIFT: usize = 160;

/// The virtual-key index of the right shift key.
pub const VK_RSHIFT: usize = 161;

/// The bit that marks a virtual key as held in the state image.
pub const HIGHBIT: u8 = 0x80;

/// Whether a state image latches the shift level.
pub open spec fn spec_state_shift(s: Seq<u8>) -> bool {
    s[VK_SHIFT as int] & HIGHBIT != 0
}

/// Whether a state image latches the caps-lock toggle.
pub open spec fn spec_state_caps(s: Seq<u8>) -> bool {
    s[VK_CAPITAL as int] & HIGHBIT != 0
}

/// The character a virtual-key code resolves to under a state image.
pub open spec fn spec_code_name(s: Seq<u8>, code: u16) -> Option<char> {
    layout::spec_resolve_char(spec_key_from_code(code), spec_state_shift(s), spec_state_caps(s))
}

/// How one event advances the state image: shift presses and releases set
/// and clear the shift bytes, a caps-lock press flips the toggle byte, and
/// every other event leaves the image alone.
pub open spec fn spec_add_state(s: Seq<u8>, e: EventType) -> Seq<u8> {
    match e {
        EventType::KeyPress(Key::ShiftLeft) => s.update(
            VK_SHIFT as int,
            s[VK_SHIFT as int] | HIGHBIT,
        ).update(VK_LSHIFT as int, s[VK_LSHIFT as int] | HIGHBIT),
        EventType::KeyPress(Key::ShiftRight) => s.update(
            VK_SHIFT as int,
            s[VK_SHIFT as int] | HIGHBIT,
        ).update(VK_RSHIFT as int, s[VK_RSHIFT as int] | HIGHBIT),
        EventType::KeyPress(Key::CapsLock) => s.update(
            VK_CAPITAL as int,
            s[VK_CAPITAL as int] ^ HIGHBIT,
        ),
        EventType::KeyRelease(Key::ShiftLeft) => s.update(
            VK_SHIFT as int,
            s[VK_SHIFT as int] & !HIGHBIT,
        ).update(VK_LSHIFT as int, s[VK_LSHIFT as int] & !HIGHBIT),
        EventType::KeyRelease(Key::ShiftRight) => s.update(
            VK_SHIFT as int,
            s[VK_SHIFT as int] & !HIGHBIT,
        ).update(VK_RSHIFT as int, s[VK_RSHIFT as int] & HIGHBIT),
        _ => s,
    }
}

/// The character one event resolves to under a state image: only a press of
/// a mapped non-modifier key resolves.
pub open spec fn spec_add_name(s: Seq<u8>, e: EventType) -> Option<char> {
    match e {
        EventType::KeyPress(Key::ShiftLeft)
        | EventType::KeyPress(Key::ShiftRight)
        | EventType::KeyPress(Key::CapsLock) => None,
        EventType::KeyPress(key) => match crate::windows::keycodes::spec_code_from_key(key) {
            Some(code) => spec_code_name(s, code),
            None => None,
        },
        _ => None,
    }
}

/// A keyboard session latching modifiers in a virtual-key state image and
/// resolving keypresses against the reference layout. The reference layout
/// composes no dead keys, so the dead-key replay buffer of the OS resolver
/// has no counterpart here.
#[derive(Debug)]
pub struct Keyboard {
    last_state: Vec<u8>,
}

impl Keyboard {
    /// The virtual-key state image, for contracts.
    pub closed spec fn view_state(&self) -> Seq<u8> {
        self.last_state@
    }

    /// The image is always the full 256 virtual keys.
    #[verifier::type_invariant]
    closed spec fn wf(&self) -> bool {
        self.last_state@.len() == 256
    }

    pub fn new() -> (r: Option<Keyboard>)
        ensures
            r matches Some(k) && k.view_state() == Seq::<u8>::new(256, |i: int| 0u8),
    {
        let mut last_state: Vec<u8> = Vec::new();
        let mut i: usize = 0;
        while i < 256
            invariant
                i <= 256,
                last_state@.len() == i,
                forall|j: int| 0 <= j < i ==> last_state@[j] == 0u8,
            decreases 256 - i,
        {
            last_state.push(0);
            i += 1;
        }
        proof {
            assert(last_state@ =~= Seq::<u8>::new(256, |i: int| 0u8));
        }
        Some(Keyboard { last_state })
    }

    /// Resolves a virtual-key code under the current state image.
    pub fn get_code_name(&self, code: u16) -> (r: Option<String>)
        ensures
            r is Some <==> spec_code_name(self.view_state(), code) is Some,
            r matches Some(s) ==> s@ == seq![spec_code_name(self.view_state(), code)->0],
    {
        proof {
            use_type_invariant(self);
        }
        let key = key_from_code(code);
        let shift = self.last_state[VK_SHIFT] & HIGHBIT != 0;
        let caps = self.last_state[VK_CAPITAL] & HIGHBIT != 0;
        layout::resolve_string(key, shift, caps)
    }

    /// Advances the state image as if `event_type` happened and resolves the
    /// text it produces. Modifier presses and all releases resolve to
    /// nothing; a release never resolves.
    pub fn add(&mut self, event_type: &EventType) -> (r: Option<String>)
        ensures
            final(self).view_state() == spec_add_state(old(self).view_state(), *event_type),
            r is Some <==> spec_add_name(old(self).view_state(), *event_type) is Some,
            r matches Some(s) ==> s@ == seq![
                spec_add_name(old(self).view_state(), *event_type)->0,
            ],
            event_type matches EventType::KeyRelease(_) ==> r is None,
    {
        proof {
            use_type_invariant(&*self);
        }
        match event_type {
            EventType::KeyPress(key) => match key {
                Key::ShiftLeft => {
                    self.last_state[VK_SHIFT] = self.last_state[VK_SHIFT] | HIGHBIT;
                    self.last_state[VK_LSHIFT] = self.last_state[VK_LSHIFT] | HIGHBIT;
                    None
                },
                Key::ShiftRight => {
                    self.last_state[VK_SHIFT] = self.last_state[VK_SHIFT] | HIGHBIT;
                    self.last_state[VK_RSHIFT] = self.last_state[VK_RSHIFT] | HIGHBIT;
                    None
                },
                Key::CapsLock => {
                    self.last_state[VK_CAPITAL] = self.last_state[VK_CAPITAL] ^ HIGHBIT;
                    None
                },
                key => {
                    match code_from_key(*key) {
                        Some(code) => self.get_code_name(code),
                        None => None,
                    }
                },
            },
            EventType::KeyRelease(key) => match key {
                Key::ShiftLeft => {
                    self.last_state[VK_SHIFT] = self.last_state[VK_SHIFT] & !HIGHBIT;
                    self.last_state[VK_LSHIFT] = self.last_state[VK_LSHIFT] & !HIGHBIT;
                    None
                },
                Key::ShiftRight => {
                    self.last_state[VK_SHIFT] = self.last_state[VK_SHIFT] & !HIGHBIT;
                    self.last_state[VK_RSHIFT] = self.last_state[VK_RSHIFT] & HIGHBIT;
                    None
                },
                _ => None,
            },
            _ => None,
        }
    }

    /// Clears the shift level and the caps-lock toggle.
    pub fn reset(&mut self)
        ensures
            final(self).view_state() == old(self).view_state().update(
                VK_SHIFT as int,
                0u8,
            ).update(VK_CAPITAL as int, 0u8),
    {
        proof {
            use_type_invariant(&*self);
        }
        self.last_state[VK_SHIFT] = 0;
        self.last_state[VK_CAPITAL] = 0;
    }
}

impl KeyboardState for Keyboard {
    fn add(&mut self, event_type: &EventType) -> Option<String> {
        Keyboard::add(self, event_type)
    }

    fn reset(&mut self) {
        Keyboard::reset(self);
    }
}

} // verus!
