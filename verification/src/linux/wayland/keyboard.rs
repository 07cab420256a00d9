//! The Wayland keyboard resolver: all five modifier latches, the depressed
//! modifier mask built from the layout's modifier indices, and resolution
//! of a layout keycode against the reference layout. The layout library's
//! session and its modifier indices are owned by the caller; the indices
//! are validated at construction.

use vstd::prelude::*;

use crate::layout;
use crate::linux::wayland::keycodes::code_from_key;
use crate::linux::wayland::keycodes::spec_key_from_code;
use crate::rdev::EventType;
use crate::rdev::Key;
use crate::rdev::KeyboardState;
use crate::rdev::SimulateError;

verus! {

/// The offset between the kernel's key codes and the layout library's.
pub const XKB_OFFSET: u32 = 8;

/// The latched modifiers of a session.
#[derive(Debug, Copy, Clone, PartialEq, Eq, Structural)]
pub struct Latches {
    pub shift: bool,
    pub caps_lock: bool,
    pub alt: bool,
    pub ctrl: bool,
    pub meta: bool,
}

/// The latches of a fresh session: nothing held.
pub open spec fn spec_initial_latches() -> Latches {
    Latches { shift: false, caps_lock: false, alt: false, ctrl: false, meta: false }
}

/// The modifier indices the layout reported, one bit position per
/// modifier.
#[derive(Debug, Copy, Clone, PartialEq, Eq, Structural)]
pub struct ModIndices {
    pub shift_idx: u32,
    pub caps_idx: u32,
    pub alt_idx: u32,
    pub ctrl_idx: u32,
    pub meta_idx: u32,
}

/// Whether every reported index addresses a bit of the 32-bit mask.
pub open spec fn spec_indices_valid(idx: ModIndices) -> bool {
    &&& idx.shift_idx < 32
    &&& idx.caps_idx < 32
    &&& idx.alt_idx < 32
    &&& idx.ctrl_idx < 32
    &&& idx.meta_idx < 32
}

/// The depressed modifier mask of the latches, one bit per held modifier
/// at its reported index.
pub open spec fn spec_depressed_mask(latches: Latches, idx: ModIndices) -> u32 {
    (if latches.shift {
        1u32 << idx.shift_idx
    } else {
        0u32
    }) | (if latches.caps_lock {
        1u32 << idx.caps_idx
    } else {
        0u32
    }) | (if latches.alt {
        1u32 << idx.alt_idx
    } else {
        0u32
    }) | (if latches.ctrl {
        1u32 << idx.ctrl_idx
    } else {
        0u32
    }) | (if latches.meta {
        1u32 << idx.meta_idx
    } else {
        0u32
    })
}

/// How one event advances the latches: shift, alt, control and meta are
/// levels that presses set and releases clear, caps-lock is a toggle that
/// a press flips.
pub open spec fn spec_add_latches(l: Latches, e: EventType) -> Latches {
    match e {
        EventType::KeyPress(Key::ShiftLeft) | EventType::KeyPress(Key::ShiftRight) => Latches {
            shift: true,
            ..l
        },
        EventType::KeyPress(Key::CapsLock) => Latches { caps_lock: !l.caps_lock, ..l },
        EventType::KeyPress(Key::Alt) => Latches { alt: true, ..l },
        EventType::KeyPress(Key::ControlLeft) | EventType::KeyPress(Key::ControlRight) => Latches {
            ctrl: true,
            ..l
        },
        EventType::KeyPress(Key::MetaLeft) | EventType::KeyPress(Key::MetaRight) => Latches {
            meta: true,
            ..l
        },
        EventType::KeyRelease(Key::ShiftLeft) | EventType::KeyRelease(Key::ShiftRight) => Latches {
            shift: false,
            ..l
        },
        EventType::KeyRelease(Key::Alt) => Latches { alt: false, ..l },
        EventType::KeyRelease(Key::ControlLeft) | EventType::KeyRelease(
            Key::ControlRight,
        ) => Latches { ctrl: false, ..l },
        EventType::KeyRelease(Key::MetaLeft) | EventType::KeyRelease(Key::MetaRight) => Latches {
            meta: false,
            ..l
        },
        _ => l,
    }
}

/// Whether a key only moves the latches and never resolves.
pub open spec fn spec_is_latch_key(key: Key) -> bool {
    match key {
        Key::ShiftLeft | Key::ShiftRight | Key::CapsLock | Key::Alt | Key::ControlLeft
            | Key::ControlRight | Key::MetaLeft | Key::MetaRight => true,
        _ => false,
    }
}

/// The character a layout keycode resolves to under the latches: the
/// keycode sits one offset above the kernel code the table decodes, and
/// the reference layout answers to the shift level and the caps toggle.
pub open spec fn spec_key_utf8(latches: Latches, keycode: u32) -> Option<char> {
    if keycode >= XKB_OFFSET {
        layout::spec_resolve_char(
            spec_key_from_code((keycode - XKB_OFFSET) as u32),
            latches.shift,
            latches.caps_lock,
        )
    } else {
        None
    }
}

/// The character one event resolves to under the latches: only a press of
/// a mapped key that is no latch key resolves; the kernel's 16-bit code
/// space bounds what can reach the layout.
pub open spec fn spec_add_name(l: Latches, e: EventType) -> Option<char> {
    match e {
        EventType::KeyPress(key) => if spec_is_latch_key(key) {
            None
        } else {
            match crate::linux::wayland::keycodes::spec_code_from_key(key) {
                Some(code) => if code <= 0xffff {
                    spec_key_utf8(l, (code + XKB_OFFSET) as u32)
                } else {
                    None
                },
                None => None,
            }
        },
        _ => None,
    }
}

/// A keyboard session resolving keypresses against the reference layout
/// while latching all five modifiers. The reference layout composes no
/// dead keys, so there is no pending-dead-key slot to clear.
#[derive(Debug)]
pub struct Keyboard {
    latches: Latches,
    indices: ModIndices,
}

impl Keyboard {
    /// The latched modifiers, for contracts.
    pub closed spec fn view_latches(&self) -> Latches {
        self.latches
    }

    /// The layout's modifier indices, for contracts.
    pub closed spec fn view_indices(&self) -> ModIndices {
        self.indices
    }

    /// Every session holds validated indices.
    #[verifier::type_invariant]
    closed spec fn wf(&self) -> bool {
        spec_indices_valid(self.indices)
    }

    /// Builds a session over the layout's modifier indices. An index
    /// beyond the mask's 32 bits cannot have come from a usable layout and
    /// is refused, as a failed layout compilation is.
    pub fn new(indices: ModIndices) -> (r: Result<Keyboard, SimulateError>)
        ensures
            r is Ok <==> spec_indices_valid(indices),
            r matches Ok(k) ==> k.view_latches() == spec_initial_latches() && k.view_indices()
                == indices,
    {
        if indices.shift_idx < 32 && indices.caps_idx < 32 && indices.alt_idx < 32
            && indices.ctrl_idx < 32 && indices.meta_idx < 32 {
            Ok(
                Keyboard {
                    latches: Latches {
                        shift: false,
                        caps_lock: false,
                        alt: false,
                        ctrl: false,
                        meta: false,
                    },
                    indices,
                },
            )
        } else {
            Err(SimulateError)
        }
    }

    /// The depressed modifier mask the session reports to the layout.
    pub fn update_modifiers(&self) -> (r: u32)
        ensures
            r == spec_depressed_mask(self.view_latches(), self.view_indices()),
    {
        proof {
            use_type_invariant(self);
        }
        let m_shift: u32 = if self.latches.shift {
            1u32 << self.indices.shift_idx
        } else {
            0u32
        };
        let m_caps: u32 = if self.latches.caps_lock {
            1u32 << self.indices.caps_idx
        } else {
            0u32
        };
        let m_alt: u32 = if self.latches.alt {
            1u32 << self.indices.alt_idx
        } else {
            0u32
        };
        let m_ctrl: u32 = if self.latches.ctrl {
            1u32 << self.indices.ctrl_idx
        } else {
            0u32
        };
        let m_meta: u32 = if self.latches.meta {
            1u32 << self.indices.meta_idx
        } else {
            0u32
        };
        m_shift | m_caps | m_alt | m_ctrl | m_meta
    }

    /// Resolves a layout keycode under the current latches.
    pub fn get_key_utf8(&self, keycode: u32) -> (r: Option<String>)
        ensures
            r is Some <==> spec_key_utf8(self.view_latches(), keycode) is Some,
            r matches Some(s) ==> s@ == seq![spec_key_utf8(self.view_latches(), keycode)->0],
    {
        if keycode >= XKB_OFFSET {
            let key = crate::linux::wayland::keycodes::key_from_code(keycode - XKB_OFFSET);
            layout::resolve_string(key, self.latches.shift, self.latches.caps_lock)
        } else {
            None
        }
    }

    /// Advances the latches as if `event_type` happened and resolves the
    /// text it produces. Latch-key presses and all releases resolve to
    /// nothing; a release never resolves.
    pub fn add(&mut self, event_type: &EventType) -> (r: Option<String>)
        ensures
            final(self).view_latches() == spec_add_latches(
                old(self).view_latches(),
                *event_type,
            ),
            final(self).view_indices() == old(self).view_indices(),
            r is Some <==> spec_add_name(old(self).view_latches(), *event_type) is Some,
            r matches Some(s) ==> s@ == seq![
                spec_add_name(old(self).view_latches(), *event_type)->0,
            ],
            event_type matches EventType::KeyRelease(_) ==> r is None,
    {
        proof {
            use_type_invariant(&*self);
        }
        match event_type {
            EventType::KeyPress(key) => match key {
                Key::ShiftLeft | Key::ShiftRight => {
                    self.latches.shift = true;
                    None
                },
                Key::CapsLock => {
                    self.latches.caps_lock = !self.latches.caps_lock;
                    None
                },
                Key::Alt => {
                    self.latches.alt = true;
                    None
                },
                Key::ControlLeft | Key::ControlRight => {
                    self.latches.ctrl = true;
                    None
                },
                Key::MetaLeft | Key::MetaRight => {
                    self.latches.meta = true;
                    None
                },
                key => {
                    match code_from_key(*key) {
                        Some(code) => if code <= 0xffff {
                            self.get_key_utf8(code + XKB_OFFSET)
                        } else {
                            None
                        },
                        None => None,
                    }
                },
            },
            EventType::KeyRelease(key) => match key {
                Key::ShiftLeft | Key::ShiftRight => {
                    self.latches.shift = false;
                    None
                },
                Key::Alt => {
                    self.latches.alt = false;
                    None
                },
                Key::ControlLeft | Key::ControlRight => {
                    self.latches.ctrl = false;
                    None
                },
                Key::MetaLeft | Key::MetaRight => {
                    self.latches.meta = false;
                    None
                },
                _ => None,
            },
            _ => None,
        }
    }

    /// Clears every latch as if the session were newly constructed; the
    /// layout's indices are kept.
    pub fn reset(&mut self)
        ensures
            final(self).view_latches() == spec_initial_latches(),
            final(self).view_indices() == old(self).view_indices(),
    {
        proof {
            use_type_invariant(&*self);
        }
        self.latches = Latches {
            shift: false,
            caps_lock: false,
            alt: false,
            ctrl: false,
            meta: false,
        };
    }
}

impl KeyboardState for Keyboard {
    fn add(&mut self, event_type: &EventType) -> Option<String> {
        Keyboard::add(self, event_type)
    }

    fn reset(&mut self) {
        Keyboard::reset(self);
    }
}

} // verus!
