//! The evdev conversion used by the Linux grab and injection engines: plain
//! kernel input-event records, the decode of a record to at most one
//! canonical event, the encode of a canonical event back into a record, and
//! the round-trip laws tying the two together.

use vstd::prelude::*;

use crate::linux::wayland::keycodes::code_from_key;
use crate::linux::wayland::keycodes::key_from_code;
use crate::linux::wayland::keycodes::spec_code_from_key;
use crate::linux::wayland::keycodes::spec_key_from_code;
use crate::rdev::Button;
use crate::rdev::EventType;
use crate::rdev::Key;

verus! {

/// The kernel event kind of a synchronization marker.
pub const EV_SYN: u16 = 0;

/// The kernel event kind of a key or button transition.
pub const EV_KEY: u16 = 1;

/// The kernel event kind of a relative axis motion.
pub const EV_REL: u16 = 2;

/// The relative axis of horizontal pointer motion.
pub const REL_X: u16 = 0;

/// The relative axis of vertical pointer motion.
pub const REL_Y: u16 = 1;

/// The relative axis of the horizontal wheel, in detents.
pub const REL_HWHEEL: u16 = 6;

/// The relative axis of the vertical wheel, in detents.
pub const REL_WHEEL: u16 = 8;

/// The key code of the left mouse button.
pub const BTN_LEFT: u16 = 272;

/// The key code of the right mouse button.
pub const BTN_RIGHT: u16 = 273;

/// The key code of the middle mouse button.
pub const BTN_MIDDLE: u16 = 274;

/// One kernel input event, as read from or written to a device: the
/// timestamp, the event kind, the code within the kind, and the value.
#[derive(Debug, Copy, Clone, PartialEq, Eq, Structural)]
pub struct InputEventRecord {
    pub time_sec: i64,
    pub time_usec: i64,
    pub kind: u16,
    pub code: u16,
    pub value: i32,
}

/// Whether the grab engine must keep grabbing after an event or stop and
/// release the devices.
#[derive(Debug, Eq, PartialEq, Hash, Structural)]
pub enum GrabStatus {
    /// Keep grabbing.
    Continue,
    /// Release the devices.
    Stop,
}

/// The mouse button a kernel key code names, if any.
pub open spec fn spec_button_from_code(code: u16) -> Option<Button> {
    if code == BTN_LEFT {
        Some(Button::Left)
    } else if code == BTN_RIGHT {
        Some(Button::Right)
    } else if code == BTN_MIDDLE {
        Some(Button::Middle)
    } else {
        None
    }
}

/// The kernel key code of a mouse button; mice beyond the named three have
/// no code here.
pub open spec fn spec_code_from_button(button: Button) -> Option<u16> {
    match button {
        Button::Left => Some(BTN_LEFT),
        Button::Right => Some(BTN_RIGHT),
        Button::Middle => Some(BTN_MIDDLE),
        Button::Unknown(_) => None,
    }
}

/// The canonical event a kernel record decodes to, if any: key kinds decode
/// to button or key transitions with zero as release, relative kinds to
/// axis-wise motion and wheel detents, and every other kind (the
/// synchronization markers among them) decodes to nothing.
pub open spec fn spec_evdev_event_to_rdev_event(r: InputEventRecord) -> Option<EventType> {
    if r.kind == EV_KEY {
        match spec_button_from_code(r.code) {
            Some(button) => if r.value == 0 {
                Some(EventType::ButtonRelease(button))
            } else {
                Some(EventType::ButtonPress(button))
            },
            None => {
                let key = spec_key_from_code(r.code as u32);
                if r.value == 0 {
                    Some(EventType::KeyRelease(key))
                } else {
                    Some(EventType::KeyPress(key))
                }
            },
        }
    } else if r.kind == EV_REL {
        if r.code == REL_X {
            Some(EventType::MouseMove { x: r.value as i64, y: 0 })
        } else if r.code == REL_Y {
            Some(EventType::MouseMove { x: 0, y: r.value as i64 })
        } else if r.code == REL_HWHEEL {
            Some(EventType::Wheel { delta_x: r.value as i64, delta_y: 0 })
        } else if r.code == REL_WHEEL {
            Some(EventType::Wheel { delta_x: 0, delta_y: r.value as i64 })
        } else {
            None
        }
    } else {
        None
    }
}

/// Decodes one kernel record to its canonical event, if it has one.
pub fn evdev_event_to_rdev_event(r: &InputEventRecord) -> (e: Option<EventType>)
    ensures
        e == spec_evdev_event_to_rdev_event(*r),
{
    if r.kind == EV_KEY {
        if r.code == BTN_LEFT || r.code == BTN_RIGHT || r.code == BTN_MIDDLE {
            let button = if r.code == BTN_LEFT {
                Button::Left
            } else if r.code == BTN_RIGHT {
                Button::Right
            } else {
                Button::Middle
            };
            if r.value == 0 {
                Some(EventType::ButtonRelease(button))
            } else {
                Some(EventType::ButtonPress(button))
            }
        } else {
            let key = key_from_code(r.code as u32);
            if r.value == 0 {
                Some(EventType::KeyRelease(key))
            } else {
                Some(EventType::KeyPress(key))
            }
        }
    } else if r.kind == EV_REL {
        if r.code == REL_X {
            Some(EventType::MouseMove { x: r.value as i64, y: 0 })
        } else if r.code == REL_Y {
            Some(EventType::MouseMove { x: 0, y: r.value as i64 })
        } else if r.code == REL_HWHEEL {
            Some(EventType::Wheel { delta_x: r.value as i64, delta_y: 0 })
        } else if r.code == REL_WHEEL {
            Some(EventType::Wheel { delta_x: 0, delta_y: r.value as i64 })
        } else {
            None
        }
    } else {
        None
    }
}

/// A value clamped into the 32-bit range a kernel record carries.
pub open spec fn spec_clamp_i32(v: i64) -> i32 {
    if v < i32::MIN as i64 {
        i32::MIN
    } else if v > i32::MAX as i64 {
        i32::MAX
    } else {
        v as i32
    }
}

/// Clamps a value into the 32-bit range a kernel record carries.
pub fn clamp_i32(v: i64) -> (r: i32)
    ensures
        r == spec_clamp_i32(v),
{
    if v < i32::MIN as i64 {
        i32::MIN
    } else if v > i32::MAX as i64 {
        i32::MAX
    } else {
        v as i32
    }
}

/// The kernel record a canonical event encodes to, at a given timestamp, if
/// it can be encoded: key events need a mapped code within the kernel's
/// 16-bit code space, buttons must be one of the named three, motion and
/// wheel events carry one axis each (the horizontal one when it is nonzero,
/// else the vertical one), with values clamped to the record's range.
pub open spec fn spec_rdev_event_to_evdev_event(
    e: EventType,
    sec: i64,
    usec: i64,
) -> Option<InputEventRecord> {
    match e {
        EventType::KeyPress(key) => match spec_code_from_key(key) {
            Some(code) => if code <= 0xffff {
                Some(
                    InputEventRecord {
                        time_sec: sec,
                        time_usec: usec,
                        kind: EV_KEY,
                        code: code as u16,
                        value: 1,
                    },
                )
            } else {
                None
            },
            None => None,
        },
        EventType::KeyRelease(key) => match spec_code_from_key(key) {
            Some(code) => if code <= 0xffff {
                Some(
                    InputEventRecord {
                        time_sec: sec,
                        time_usec: usec,
                        kind: EV_KEY,
                        code: code as u16,
                        value: 0,
                    },
                )
            } else {
                None
            },
            None => None,
        },
        EventType::ButtonPress(button) => match spec_code_from_button(button) {
            Some(code) => Some(
                InputEventRecord { time_sec: sec, time_usec: usec, kind: EV_KEY, code, value: 1 },
            ),
            None => None,
        },
        EventType::ButtonRelease(button) => match spec_code_from_button(button) {
            Some(code) => Some(
                InputEventRecord { time_sec: sec, time_usec: usec, kind: EV_KEY, code, value: 0 },
            ),
            None => None,
        },
        EventType::MouseMove { x, y } => if x != 0 {
            Some(
                InputEventRecord {
                    time_sec: sec,
                    time_usec: usec,
                    kind: EV_REL,
                    code: REL_X,
                    value: spec_clamp_i32(x),
                },
            )
        } else {
            Some(
                InputEventRecord {
                    time_sec: sec,
                    time_usec: usec,
                    kind: EV_REL,
                    code: REL_Y,
                    value: spec_clamp_i32(y),
                },
            )
        },
        EventType::Wheel { delta_x, delta_y } => if delta_x != 0 {
            Some(
                InputEventRecord {
                    time_sec: sec,
                    time_usec: usec,
                    kind: EV_REL,
                    code: REL_HWHEEL,
                    value: spec_clamp_i32(delta_x),
                },
            )
        } else {
            Some(
                InputEventRecord {
                    time_sec: sec,
                    time_usec: usec,
                    kind: EV_REL,
                    code: REL_WHEEL,
                    value: spec_clamp_i32(delta_y),
                },
            )
        },
    }
}

/// Encodes one canonical event into a kernel record at a timestamp, if it
/// can be encoded.
pub fn rdev_event_to_evdev_event(e: &EventType, sec: i64, usec: i64) -> (r: Option<
    InputEventRecord,
>)
    ensures
        r == spec_rdev_event_to_evdev_event(*e, sec, usec),
{
    match e {
        EventType::KeyPress(key) => match code_from_key(*key) {
            Some(code) => if code <= 0xffff {
                Some(
                    InputEventRecord {
                        time_sec: sec,
                        time_usec: usec,
                        kind: EV_KEY,
                        code: code as u16,
                        value: 1,
                    },
                )
            } else {
                None
            },
            None => None,
        },
        EventType::KeyRelease(key) => match code_from_key(*key) {
            Some(code) => if code <= 0xffff {
                Some(
                    InputEventRecord {
                        time_sec: sec,
                        time_usec: usec,
                        kind: EV_KEY,
                        code: code as u16,
                        value: 0,
                    },
                )
            } else {
                None
            },
            None => None,
        },
        EventType::ButtonPress(button) => {
            let code = match button {
                Button::Left => Some(BTN_LEFT),
                Button::Right => Some(BTN_RIGHT),
                Button::Middle => Some(BTN_MIDDLE),
                Button::Unknown(_) => None,
            };
            match code {
                Some(code) => Some(
                    InputEventRecord {
                        time_sec: sec,
                        time_usec: usec,
                        kind: EV_KEY,
                        code,
                        value: 1,
                    },
                ),
                None => None,
            }
        },
        EventType::ButtonRelease(button) => {
            let code = match button {
                Button::Left => Some(BTN_LEFT),
                Button::Right => Some(BTN_RIGHT),
                Button::Middle => Some(BTN_MIDDLE),
                Button::Unknown(_) => None,
            };
            match code {
                Some(code) => Some(
                    InputEventRecord {
                        time_sec: sec,
                        time_usec: usec,
                        kind: EV_KEY,
                        code,
                        value: 0,
                    },
                ),
                None => None,
            }
        },
        EventType::MouseMove { x, y } => if *x != 0 {
            Some(
                InputEventRecord {
                    time_sec: sec,
                    time_usec: usec,
                    kind: EV_REL,
                    code: REL_X,
                    value: clamp_i32(*x),
                },
            )
        } else {
            Some(
                InputEventRecord {
                    time_sec: sec,
                    time_usec: usec,
                    kind: EV_REL,
                    code: REL_Y,
                    value: clamp_i32(*y),
                },
            )
        },
        EventType::Wheel { delta_x, delta_y } => if *delta_x != 0 {
            Some(
                InputEventRecord {
                    time_sec: sec,
                    time_usec: usec,
                    kind: EV_REL,
                    code: REL_HWHEEL,
                    value: clamp_i32(*delta_x),
                },
            )
        } else {
            Some(
                InputEventRecord {
                    time_sec: sec,
                    time_usec: usec,
                    kind: EV_REL,
                    code: REL_WHEEL,
                    value: clamp_i32(*delta_y),
                },
            )
        },
    }
}

/// Law: key transitions survive the round trip through a kernel record.
/// Every named key whose press or release can be encoded decodes back to
/// exactly the same transition.
pub proof fn lemma_key_event_round_trip(key: Key, sec: i64, usec: i64)
    requires
        !(key is Unknown),
        spec_rdev_event_to_evdev_event(EventType::KeyPress(key), sec, usec) is Some,
    ensures
        spec_evdev_event_to_rdev_event(
            spec_rdev_event_to_evdev_event(EventType::KeyPress(key), sec, usec)->0,
        ) == Some(EventType::KeyPress(key)),
        spec_evdev_event_to_rdev_event(
            spec_rdev_event_to_evdev_event(EventType::KeyRelease(key), sec, usec)->0,
        ) == Some(EventType::KeyRelease(key)),
{
}

/// Law: button transitions on the three named buttons survive the round
/// trip through a kernel record.
pub proof fn lemma_button_event_round_trip(button: Button, sec: i64, usec: i64)
    requires
        !(button is Unknown),
    ensures
        spec_evdev_event_to_rdev_event(
            spec_rdev_event_to_evdev_event(EventType::ButtonPress(button), sec, usec)->0,
        ) == Some(EventType::ButtonPress(button)),
        spec_evdev_event_to_rdev_event(
            spec_rdev_event_to_evdev_event(EventType::ButtonRelease(button), sec, usec)->0,
        ) == Some(EventType::ButtonRelease(button)),
{
}

/// Law: a vertical wheel event within the record's range survives the round
/// trip exactly, and whatever the magnitude, the decoded vertical delta
/// keeps the sign of the simulated one.
pub proof fn lemma_wheel_round_trip(delta_y: i64, sec: i64, usec: i64)
    requires
        delta_y != 0,
    ensures
        i32::MIN <= delta_y <= i32::MAX ==> spec_evdev_event_to_rdev_event(
            spec_rdev_event_to_evdev_event(
                EventType::Wheel { delta_x: 0, delta_y },
                sec,
                usec,
            )->0,
        ) == Some(EventType::Wheel { delta_x: 0, delta_y }),
        spec_evdev_event_to_rdev_event(
            spec_rdev_event_to_evdev_event(EventType::Wheel { delta_x: 0, delta_y }, sec, usec)->0,
        ) matches Some(EventType::Wheel { delta_x: dx, delta_y: dy })
            && dx == 0
            && (dy > 0 <==> delta_y > 0)
            && (dy < 0 <==> delta_y < 0),
{
}

} // verus!
