//! The macOS capture decode: a validated view of the fields the event tap
//! hands over, the press/release decision for modifier flag changes, the
//! decode of system-defined special keys, and the map from a raw tap event
//! to at most one delivered event.

use vstd::prelude::*;

use crate::macos::keyboard::spec_flags_to_state;
use crate::macos::keyboard::spec_string_from_code;
use crate::macos::keyboard::Keyboard;
use crate::macos::keyboard::FLAG_COMMAND;
use crate::macos::keyboard::FLAG_CONTROL;
use crate::macos::keyboard::FLAG_OPTION;
use crate::macos::keyboard::FLAG_SHIFT;
use crate::macos::keycodes::key_from_code;
use crate::macos::keycodes::key_from_special_key;
use crate::macos::keycodes::spec_key_from_code;
use crate::macos::keycodes::spec_key_from_special_key;
use crate::rdev::Button;
use crate::rdev::Event;
use crate::rdev::EventType;

verus! {

/// The tap event type of a left-button press.
pub const CG_LEFT_MOUSE_DOWN: u32 = 1;

/// The tap event type of a left-button release.
pub const CG_LEFT_MOUSE_UP: u32 = 2;

/// The tap event type of a right-button press.
pub const CG_RIGHT_MOUSE_DOWN: u32 = 3;

/// The tap event type of a right-button release.
pub const CG_RIGHT_MOUSE_UP: u32 = 4;

/// The tap event type of a pointer motion.
pub const CG_MOUSE_MOVED: u32 = 5;

/// The tap event type of a drag with the left button held.
pub const CG_LEFT_MOUSE_DRAGGED: u32 = 6;

/// The tap event type of a drag with the right button held.
pub const CG_RIGHT_MOUSE_DRAGGED: u32 = 7;

/// The tap event type of a key press.
pub const CG_KEY_DOWN: u32 = 10;

/// The tap event type of a key release.
pub const CG_KEY_UP: u32 = 11;

/// The tap event type of a modifier-flags change.
pub const CG_FLAGS_CHANGED: u32 = 12;

/// The tap event type of a system-defined event.
pub const CG_SYS_DEFINED: u32 = 14;

/// The tap event type of a wheel motion.
pub const CG_SCROLL_WHEEL: u32 = 22;

/// The subtype of a system-defined event that carries a special key.
pub const SYS_SUBTYPE_KEYBOARD: i64 = 8;

/// The fields of one raw tap event, read out at the tap boundary: the tap
/// event type, the keycode field, the modifier flags, the pointer location
/// in whole pixels, the two wheel deltas, and the system-defined payload.
#[derive(Debug, Copy, Clone, PartialEq, Eq, Structural)]
pub struct RawCgEvent {
    pub etype: u32,
    pub keycode: i64,
    pub flags: u64,
    pub x: i64,
    pub y: i64,
    pub wheel_dy: i64,
    pub wheel_dx: i64,
    pub subtype: i64,
    pub data1: i64,
}

/// The transition a flags-changed event denotes, judged against the flags
/// of the previous event: a modifier bit that appears is a press, one that
/// vanishes is a release, checked for shift, control, option and command in
/// that order; no change on any of them decodes to nothing.
pub open spec fn spec_flag_transition(flags: u64, last: u64) -> Option<bool> {
    if flags & FLAG_SHIFT != 0 && last & FLAG_SHIFT == 0 {
        Some(true)
    } else if flags & FLAG_SHIFT == 0 && last & FLAG_SHIFT != 0 {
        Some(false)
    } else if flags & FLAG_CONTROL != 0 && last & FLAG_CONTROL == 0 {
        Some(true)
    } else if flags & FLAG_CONTROL == 0 && last & FLAG_CONTROL != 0 {
        Some(false)
    } else if flags & FLAG_OPTION != 0 && last & FLAG_OPTION == 0 {
        Some(true)
    } else if flags & FLAG_OPTION == 0 && last & FLAG_OPTION != 0 {
        Some(false)
    } else if flags & FLAG_COMMAND != 0 && last & FLAG_COMMAND == 0 {
        Some(true)
    } else if flags & FLAG_COMMAND == 0 && last & FLAG_COMMAND != 0 {
        Some(false)
    } else {
        None
    }
}

/// Judges the transition a flags-changed event denotes.
pub fn flag_transition(flags: u64, last: u64) -> (r: Option<bool>)
    ensures
        r == spec_flag_transition(flags, last),
{
    if flags & FLAG_SHIFT != 0 && last & FLAG_SHIFT == 0 {
        Some(true)
    } else if flags & FLAG_SHIFT == 0 && last & FLAG_SHIFT != 0 {
        Some(false)
    } else if flags & FLAG_CONTROL != 0 && last & FLAG_CONTROL == 0 {
        Some(true)
    } else if flags & FLAG_CONTROL == 0 && last & FLAG_CONTROL != 0 {
        Some(false)
    } else if flags & FLAG_OPTION != 0 && last & FLAG_OPTION == 0 {
        Some(true)
    } else if flags & FLAG_OPTION == 0 && last & FLAG_OPTION != 0 {
        Some(false)
    } else if flags & FLAG_COMMAND != 0 && last & FLAG_COMMAND == 0 {
        Some(true)
    } else if flags & FLAG_COMMAND == 0 && last & FLAG_COMMAND != 0 {
        Some(false)
    } else {
        None
    }
}

/// The canonical event a system-defined payload decodes to, if any: only
/// the keyboard subtype carries a key, the key number sits in the high word
/// of the payload, the transition in bits eight to sixteen, and only
/// special keys with a canonical identity produce an event.
pub open spec fn spec_sys_defined(subtype: i64, data1: i64) -> Option<EventType> {
    if subtype != SYS_SUBTYPE_KEYBOARD {
        None
    } else {
        let key_flags = data1 & 0xffff;
        let pressed = ((key_flags & 0xff00) >> 8) == 0xa;
        let key_code = (data1 & 0xffff0000) >> 16;
        match spec_key_from_special_key(key_code as u32) {
            Some(key) => if pressed {
                Some(EventType::KeyPress(key))
            } else {
                Some(EventType::KeyRelease(key))
            },
            None => None,
        }
    }
}

/// Decodes a system-defined payload to its canonical event, if it has one.
pub fn sys_defined(subtype: i64, data1: i64) -> (r: Option<EventType>)
    ensures
        r == spec_sys_defined(subtype, data1),
{
    if subtype != SYS_SUBTYPE_KEYBOARD {
        None
    } else {
        let key_flags = data1 & 0xffff;
        let pressed = ((key_flags & 0xff00) >> 8) == 0xa;
        let key_code = (data1 & 0xffff0000) >> 16;
        proof {
            let d = data1;
            assert(0 <= ((d & 0xffff0000) >> 16) <= 0xffff) by (bit_vector);
        }
        match key_from_special_key(key_code as u32) {
            Some(key) => if pressed {
                Some(EventType::KeyPress(key))
            } else {
                Some(EventType::KeyRelease(key))
            },
            None => None,
        }
    }
}

/// The canonical event a raw tap event decodes to, judged against the flags
/// of the previous event: buttons and motion map directly, key events
/// decode through the keycode table when the keycode fits the virtual
/// keycode range, flag changes become presses or releases of the flagged
/// key, wheels carry their two deltas, system-defined events decode their
/// payload, and every other tap type decodes to nothing.
pub open spec fn spec_convert_type(raw: RawCgEvent, last: u64) -> Option<EventType> {
    if raw.etype == CG_LEFT_MOUSE_DOWN {
        Some(EventType::ButtonPress(Button::Left))
    } else if raw.etype == CG_LEFT_MOUSE_UP {
        Some(EventType::ButtonRelease(Button::Left))
    } else if raw.etype == CG_RIGHT_MOUSE_DOWN {
        Some(EventType::ButtonPress(Button::Right))
    } else if raw.etype == CG_RIGHT_MOUSE_UP {
        Some(EventType::ButtonRelease(Button::Right))
    } else if raw.etype == CG_MOUSE_MOVED || raw.etype == CG_LEFT_MOUSE_DRAGGED || raw.etype
        == CG_RIGHT_MOUSE_DRAGGED {
        Some(EventType::MouseMove { x: raw.x, y: raw.y })
    } else if raw.etype == CG_KEY_DOWN {
        if 0 <= raw.keycode <= 0xffff {
            Some(EventType::KeyPress(spec_key_from_code(raw.keycode as u16)))
        } else {
            None
        }
    } else if raw.etype == CG_KEY_UP {
        if 0 <= raw.keycode <= 0xffff {
            Some(EventType::KeyRelease(spec_key_from_code(raw.keycode as u16)))
        } else {
            None
        }
    } else if raw.etype == CG_FLAGS_CHANGED {
        if 0 <= raw.keycode <= 0xffff {
            let key = spec_key_from_code(raw.keycode as u16);
            match spec_flag_transition(raw.flags, last) {
                Some(true) => Some(EventType::KeyPress(key)),
                Some(false) => Some(EventType::KeyRelease(key)),
                None => None,
            }
        } else {
            None
        }
    } else if raw.etype == CG_SCROLL_WHEEL {
        Some(EventType::Wheel { delta_x: raw.wheel_dx, delta_y: raw.wheel_dy })
    } else if raw.etype == CG_SYS_DEFINED {
        spec_sys_defined(raw.subtype, raw.data1)
    } else {
        None
    }
}

/// The remembered flags after a raw tap event: a flags-changed event that
/// decoded to a transition replaces them, everything else keeps them.
pub open spec fn spec_flags_after(raw: RawCgEvent, last: u64) -> u64 {
    if raw.etype == CG_FLAGS_CHANGED && 0 <= raw.keycode <= 0xffff && spec_flag_transition(
        raw.flags,
        last,
    ) is Some {
        raw.flags
    } else {
        last
    }
}

/// Builds the delivered event of one raw tap event, as the capture loop
/// does: decodes the canonical type against the remembered flags, updates
/// the remembered flags, stamps the reception time, and, for key presses
/// only, resolves the name of the keycode under the event's flags.
pub fn convert(raw: &RawCgEvent, last_flags: &mut u64, keyboard: &Keyboard, time: u64) -> (r:
    Option<Event>)
    ensures
        *final(last_flags) == spec_flags_after(*raw, *old(last_flags)),
        r is Some <==> spec_convert_type(*raw, *old(last_flags)) is Some,
        r matches Some(ev) ==> {
            &&& Some(ev.event_type) == spec_convert_type(*raw, *old(last_flags))
            &&& ev.time == time
            &&& (ev.event_type matches EventType::KeyPress(_) ==> {
                let resolved = spec_string_from_code(
                    raw.keycode,
                    spec_flags_to_state(raw.flags),
                );
                &&& (ev.name is Some <==> resolved is Some)
                &&& (ev.name matches Some(n) ==> n@ == seq![resolved->0])
            })
            &&& !(ev.event_type matches EventType::KeyPress(_)) ==> ev.name is None
        },
{
    let option_type: Option<EventType> = if raw.etype == CG_LEFT_MOUSE_DOWN {
        Some(EventType::ButtonPress(Button::Left))
    } else if raw.etype == CG_LEFT_MOUSE_UP {
        Some(EventType::ButtonRelease(Button::Left))
    } else if raw.etype == CG_RIGHT_MOUSE_DOWN {
        Some(EventType::ButtonPress(Button::Right))
    } else if raw.etype == CG_RIGHT_MOUSE_UP {
        Some(EventType::ButtonRelease(Button::Right))
    } else if raw.etype == CG_MOUSE_MOVED || raw.etype == CG_LEFT_MOUSE_DRAGGED || raw.etype
        == CG_RIGHT_MOUSE_DRAGGED {
        Some(EventType::MouseMove { x: raw.x, y: raw.y })
    } else if raw.etype == CG_KEY_DOWN {
        if 0 <= raw.keycode && raw.keycode <= 0xffff {
            Some(EventType::KeyPress(key_from_code(raw.keycode as u16)))
        } else {
            None
        }
    } else if raw.etype == CG_KEY_UP {
        if 0 <= raw.keycode && raw.keycode <= 0xffff {
            Some(EventType::KeyRelease(key_from_code(raw.keycode as u16)))
        } else {
            None
        }
    } else if raw.etype == CG_FLAGS_CHANGED {
        if 0 <= raw.keycode && raw.keycode <= 0xffff {
            let key = key_from_code(raw.keycode as u16);
            match flag_transition(raw.flags, *last_flags) {
                Some(true) => {
                    *last_flags = raw.flags;
                    Some(EventType::KeyPress(key))
                },
                Some(false) => {
                    *last_flags = raw.flags;
                    Some(EventType::KeyRelease(key))
                },
                None => None,
            }
        } else {
            None
        }
    } else if raw.etype == CG_SCROLL_WHEEL {
        Some(EventType::Wheel { delta_x: raw.wheel_dx, delta_y: raw.wheel_dy })
    } else if raw.etype == CG_SYS_DEFINED {
        sys_defined(raw.subtype, raw.data1)
    } else {
        None
    };
    match option_type {
        Some(event_type) => {
            let name = match event_type {
                EventType::KeyPress(_) => keyboard.create_string_for_key(raw.keycode, raw.flags),
                _ => None,
            };
            Some(Event { event_type, time, name })
        },
        None => None,
    }
}

} // verus!
