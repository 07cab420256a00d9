//! The macOS injection planner: the tap event the posting call must build
//! for one canonical event. Modifier keys travel as flags-changed events
//! and update the remembered flags; other keys carry the remembered flags
//! along.

use vstd::prelude::*;

use crate::macos::common::CG_LEFT_MOUSE_DOWN;
use crate::macos::common::CG_LEFT_MOUSE_UP;
use crate::macos::common::CG_MOUSE_MOVED;
use crate::macos::common::CG_RIGHT_MOUSE_DOWN;
use crate::macos::common::CG_RIGHT_MOUSE_UP;
use crate::macos::keyboard::FLAG_COMMAND;
use crate::macos::keyboard::FLAG_CONTROL;
use crate::macos::keyboard::FLAG_OPTION;
use crate::macos::keyboard::FLAG_SHIFT;
use crate::macos::keycodes::code_from_key;
use crate::macos::keycodes::spec_code_from_key;
use crate::rdev::Button;
use crate::rdev::EventType;
use crate::rdev::Key;
use crate::rdev::SimulateError;

verus! {

/// One synthetic tap event to post.
#[derive(Debug, Copy, Clone, PartialEq, Eq, Structural)]
pub enum CgEventPlan {
    /// A plain key transition, posted with the remembered flags.
    KeyboardEvent { code: u16, press: bool, flags: u64 },
    /// A modifier transition, posted as a flags change.
    FlagsChangedEvent { code: u16, flags: u64 },
    /// A button transition or a motion at a position.
    MouseEvent { etype: u32, x: i64, y: i64 },
    /// A wheel motion in pixel units.
    WheelEvent { delta_y: i32, delta_x: i32 },
}

/// Whether a key is one of the modifier keys that travel as flags-changed
/// events.
pub open spec fn spec_is_modifier_key(key: Key) -> bool {
    match key {
        Key::ShiftLeft | Key::ShiftRight | Key::ControlLeft | Key::ControlRight | Key::Alt
            | Key::AltGr | Key::MetaLeft | Key::MetaRight => true,
        _ => false,
    }
}

/// Tells whether a key travels as a flags-changed event.
pub fn is_modifier_key(key: Key) -> (r: bool)
    ensures
        r == spec_is_modifier_key(key),
{
    match key {
        Key::ShiftLeft | Key::ShiftRight | Key::ControlLeft | Key::ControlRight | Key::Alt
            | Key::AltGr | Key::MetaLeft | Key::MetaRight => true,
        _ => false,
    }
}

/// The flag bit a modifier key toggles; keys that are no modifiers toggle
/// nothing.
pub open spec fn spec_modifier_flag(key: Key) -> u64 {
    match key {
        Key::ShiftLeft | Key::ShiftRight => FLAG_SHIFT,
        Key::ControlLeft | Key::ControlRight => FLAG_CONTROL,
        Key::Alt | Key::AltGr => FLAG_OPTION,
        Key::MetaLeft | Key::MetaRight => FLAG_COMMAND,
        _ => 0,
    }
}

/// The remembered flags after a key transition: a modifier press sets its
/// bit, a modifier release clears it, anything else changes nothing.
pub open spec fn spec_flags_after_key(last: u64, key: Key, press: bool) -> u64 {
    if press {
        last | spec_modifier_flag(key)
    } else {
        last & !spec_modifier_flag(key)
    }
}

/// The tap event one canonical event posts, given the remembered flags and
/// the current pointer position: `None` where the event has no mapping (an
/// unmapped key, a button beyond left and right, or a wheel delta beyond
/// the 32-bit field).
pub open spec fn spec_convert_native(
    e: EventType,
    last: u64,
    mouse_x: i64,
    mouse_y: i64,
) -> Option<CgEventPlan> {
    match e {
        EventType::KeyPress(key) => match spec_code_from_key(key) {
            Some(code) => if spec_is_modifier_key(key) {
                Some(
                    CgEventPlan::FlagsChangedEvent {
                        code,
                        flags: spec_flags_after_key(last, key, true),
                    },
                )
            } else {
                Some(CgEventPlan::KeyboardEvent { code, press: true, flags: last })
            },
            None => None,
        },
        EventType::KeyRelease(key) => match spec_code_from_key(key) {
            Some(code) => if spec_is_modifier_key(key) {
                Some(
                    CgEventPlan::FlagsChangedEvent {
                        code,
                        flags: spec_flags_after_key(last, key, false),
                    },
                )
            } else {
                Some(CgEventPlan::KeyboardEvent { code, press: false, flags: last })
            },
            None => None,
        },
        EventType::ButtonPress(button) => match button {
            Button::Left => Some(
                CgEventPlan::MouseEvent { etype: CG_LEFT_MOUSE_DOWN, x: mouse_x, y: mouse_y },
            ),
            Button::Right => Some(
                CgEventPlan::MouseEvent { etype: CG_RIGHT_MOUSE_DOWN, x: mouse_x, y: mouse_y },
            ),
            _ => None,
        },
        EventType::ButtonRelease(button) => match button {
            Button::Left => Some(
                CgEventPlan::MouseEvent { etype: CG_LEFT_MOUSE_UP, x: mouse_x, y: mouse_y },
            ),
            Button::Right => Some(
                CgEventPlan::MouseEvent { etype: CG_RIGHT_MOUSE_UP, x: mouse_x, y: mouse_y },
            ),
            _ => None,
        },
        EventType::MouseMove { x, y } => Some(
            CgEventPlan::MouseEvent { etype: CG_MOUSE_MOVED, x, y },
        ),
        EventType::Wheel { delta_x, delta_y } => {
            if i32::MIN <= delta_x <= i32::MAX && i32::MIN <= delta_y <= i32::MAX {
                Some(CgEventPlan::WheelEvent { delta_y: delta_y as i32, delta_x: delta_x as i32 })
            } else {
                None
            }
        },
    }
}

/// The remembered flags after an event: only modifier-key transitions
/// change them, as the posted flags-changed event says.
pub open spec fn spec_flags_after_event(e: EventType, last: u64) -> u64 {
    match e {
        EventType::KeyPress(key) => if spec_code_from_key(key) is Some && spec_is_modifier_key(
            key,
        ) {
            spec_flags_after_key(last, key, true)
        } else {
            last
        },
        EventType::KeyRelease(key) => if spec_code_from_key(key) is Some && spec_is_modifier_key(
            key,
        ) {
            spec_flags_after_key(last, key, false)
        } else {
            last
        },
        _ => last,
    }
}

/// Builds the tap event of one canonical event and updates the remembered
/// flags, as the posting call does.
pub fn convert_native_with_source(
    event_type: &EventType,
    last_flags: &mut u64,
    mouse_x: i64,
    mouse_y: i64,
) -> (r: Option<CgEventPlan>)
    ensures
        r == spec_convert_native(*event_type, *old(last_flags), mouse_x, mouse_y),
        *final(last_flags) == spec_flags_after_event(*event_type, *old(last_flags)),
{
    match event_type {
        EventType::KeyPress(key) => match code_from_key(*key) {
            Some(code) => if is_modifier_key(*key) {
                let flag: u64 = match key {
                    Key::ShiftLeft | Key::ShiftRight => FLAG_SHIFT,
                    Key::ControlLeft | Key::ControlRight => FLAG_CONTROL,
                    Key::Alt | Key::AltGr => FLAG_OPTION,
                    Key::MetaLeft | Key::MetaRight => FLAG_COMMAND,
                    _ => 0,
                };
                *last_flags = *last_flags | flag;
                Some(CgEventPlan::FlagsChangedEvent { code, flags: *last_flags })
            } else {
                Some(CgEventPlan::KeyboardEvent { code, press: true, flags: *last_flags })
            },
            None => None,
        },
        EventType::KeyRelease(key) => match code_from_key(*key) {
            Some(code) => if is_modifier_key(*key) {
                let flag: u64 = match key {
                    Key::ShiftLeft | Key::ShiftRight => FLAG_SHIFT,
                    Key::ControlLeft | Key::ControlRight => FLAG_CONTROL,
                    Key::Alt | Key::AltGr => FLAG_OPTION,
                    Key::MetaLeft | Key::MetaRight => FLAG_COMMAND,
                    _ => 0,
                };
                *last_flags = *last_flags & !flag;
                Some(CgEventPlan::FlagsChangedEvent { code, flags: *last_flags })
            } else {
                Some(CgEventPlan::KeyboardEvent { code, press: false, flags: *last_flags })
            },
            None => None,
        },
        EventType::ButtonPress(button) => match button {
            Button::Left => Some(
                CgEventPlan::MouseEvent { etype: CG_LEFT_MOUSE_DOWN, x: mouse_x, y: mouse_y },
            ),
            Button::Right => Some(
                CgEventPlan::MouseEvent { etype: CG_RIGHT_MOUSE_DOWN, x: mouse_x, y: mouse_y },
            ),
            _ => None,
        },
        EventType::ButtonRelease(button) => match button {
            Button::Left => Some(
                CgEventPlan::MouseEvent { etype: CG_LEFT_MOUSE_UP, x: mouse_x, y: mouse_y },
            ),
            Button::Right => Some(
                CgEventPlan::MouseEvent { etype: CG_RIGHT_MOUSE_UP, x: mouse_x, y: mouse_y },
            ),
            _ => None,
        },
        EventType::MouseMove { x, y } => Some(
            CgEventPlan::MouseEvent { etype: CG_MOUSE_MOVED, x: *x, y: *y },
        ),
        EventType::Wheel { delta_x, delta_y } => {
            if i32::MIN as i64 <= *delta_x && *delta_x <= i32::MAX as i64 && i32::MIN as i64
                <= *delta_y && *delta_y <= i32::MAX as i64 {
                Some(
                    CgEventPlan::WheelEvent {
                        delta_y: *delta_y as i32,
                        delta_x: *delta_x as i32,
                    },
                )
            } else {
                None
            }
        },
    }
}

/// Law: injection of an event with no mapping fails with the one injection
/// error, plans no tap event, and leaves the remembered flags untouched.
pub fn simulate(event_type: &EventType, last_flags: &mut u64, mouse_x: i64, mouse_y: i64) -> (r:
    Result<CgEventPlan, SimulateError>)
    ensures
        r matches Ok(plan) ==> Some(plan) == spec_convert_native(
            *event_type,
            *old(last_flags),
            mouse_x,
            mouse_y,
        ),
        r is Err <==> spec_convert_native(*event_type, *old(last_flags), mouse_x, mouse_y)
            is None,
        *final(last_flags) == spec_flags_after_event(*event_type, *old(last_flags)),
        r is Err ==> *final(last_flags) == *old(last_flags),
{
    match convert_native_with_source(event_type, last_flags, mouse_x, mouse_y) {
        Some(plan) => Ok(plan),
        None => Err(SimulateError),
    }
}

} // verus!
