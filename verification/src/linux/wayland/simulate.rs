//! The uinput injection planner: the kernel record sequences the virtual
//! input device must receive for one canonical event, each closed by a
//! synchronization marker. Wheel deltas are scaled to the high-resolution
//! axes' unit of one-hundred-twenty per detent.

use vstd::prelude::*;

use crate::linux::wayland::grab::clamp_i32;
use crate::linux::wayland::grab::spec_clamp_i32;
use crate::linux::wayland::grab::InputEventRecord;
use crate::linux::wayland::grab::BTN_LEFT;
use crate::linux::wayland::grab::BTN_MIDDLE;
use crate::linux::wayland::grab::BTN_RIGHT;
use crate::linux::wayland::grab::EV_KEY;
use crate::linux::wayland::grab::EV_REL;
use crate::linux::wayland::grab::EV_SYN;
use crate::linux::wayland::grab::REL_X;
use crate::linux::wayland::grab::REL_Y;
use crate::linux::wayland::keycodes::code_from_key;
use crate::linux::wayland::keycodes::spec_code_from_key;
use crate::rdev::Button;
use crate::rdev::EventType;
use crate::rdev::SimulateError;

verus! {

/// The relative axis of the high-resolution vertical wheel.
pub const REL_WHEEL_HI_RES: u16 = 0x0b;

/// The relative axis of the high-resolution horizontal wheel.
pub const REL_HWHEEL_HI_RES: u16 = 0x0c;

/// The high-resolution wheel unit of one detent.
pub const WHEEL_HI_RES_UNIT: i64 = 120;

/// A synchronization marker at a timestamp.
pub open spec fn spec_syn_record(sec: i64, usec: i64) -> InputEventRecord {
    InputEventRecord { time_sec: sec, time_usec: usec, kind: EV_SYN, code: 0, value: 0 }
}

/// A key transition record at a timestamp.
pub open spec fn spec_key_record(sec: i64, usec: i64, code: u16, value: i32) -> InputEventRecord {
    InputEventRecord { time_sec: sec, time_usec: usec, kind: EV_KEY, code, value }
}

/// A relative-axis record at a timestamp.
pub open spec fn spec_rel_record(sec: i64, usec: i64, code: u16, value: i32) -> InputEventRecord {
    InputEventRecord { time_sec: sec, time_usec: usec, kind: EV_REL, code, value }
}

/// The record sequence one canonical event writes to the virtual device, if
/// every part of it has a mapping: a key or button transition followed by a
/// synchronization marker, a motion as its two axes and a marker, a wheel
/// as its two scaled high-resolution axes and a marker. Keys without a code
/// in the kernel's 16-bit space and buttons beyond the named three have no
/// sequence.
pub open spec fn spec_send(e: EventType, sec: i64, usec: i64) -> Option<Seq<InputEventRecord>> {
    match e {
        EventType::KeyPress(key) => match spec_code_from_key(key) {
            Some(code) => if code <= 0xffff {
                Some(seq![spec_key_record(sec, usec, code as u16, 1), spec_syn_record(sec, usec)])
            } else {
                None
            },
            None => None,
        },
        EventType::KeyRelease(key) => match spec_code_from_key(key) {
            Some(code) => if code <= 0xffff {
                Some(seq![spec_key_record(sec, usec, code as u16, 0), spec_syn_record(sec, usec)])
            } else {
                None
            },
            None => None,
        },
        EventType::ButtonPress(button) => match button {
            Button::Left => Some(
                seq![spec_key_record(sec, usec, BTN_LEFT, 1), spec_syn_record(sec, usec)],
            ),
            Button::Right => Some(
                seq![spec_key_record(sec, usec, BTN_RIGHT, 1), spec_syn_record(sec, usec)],
            ),
            Button::Middle => Some(
                seq![spec_key_record(sec, usec, BTN_MIDDLE, 1), spec_syn_record(sec, usec)],
            ),
            Button::Unknown(_) => None,
        },
        EventType::ButtonRelease(button) => match button {
            Button::Left => Some(
                seq![spec_key_record(sec, usec, BTN_LEFT, 0), spec_syn_record(sec, usec)],
            ),
            Button::Right => Some(
                seq![spec_key_record(sec, usec, BTN_RIGHT, 0), spec_syn_record(sec, usec)],
            ),
            Button::Middle => Some(
                seq![spec_key_record(sec, usec, BTN_MIDDLE, 0), spec_syn_record(sec, usec)],
            ),
            Button::Unknown(_) => None,
        },
        EventType::MouseMove { x, y } => Some(
            seq![
                spec_rel_record(sec, usec, REL_X, spec_clamp_i32(x)),
                spec_rel_record(sec, usec, REL_Y, spec_clamp_i32(y)),
                spec_syn_record(sec, usec),
            ],
        ),
        EventType::Wheel { delta_x, delta_y } => Some(
            seq![
                spec_rel_record(
                    sec,
                    usec,
                    REL_HWHEEL_HI_RES,
                    spec_clamp_scaled(delta_x),
                ),
                spec_rel_record(sec, usec, REL_WHEEL_HI_RES, spec_clamp_scaled(delta_y)),
                spec_syn_record(sec, usec),
            ],
        ),
    }
}

/// A wheel delta scaled to the high-resolution unit and clamped into the
/// record's range.
pub open spec fn spec_clamp_scaled(delta: i64) -> i32 {
    if delta * WHEEL_HI_RES_UNIT < i32::MIN as int {
        i32::MIN
    } else if delta * WHEEL_HI_RES_UNIT > i32::MAX as int {
        i32::MAX
    } else {
        (delta * WHEEL_HI_RES_UNIT) as i32
    }
}

/// Scales a wheel delta to the high-resolution unit, clamped.
pub fn clamp_scaled(delta: i64) -> (r: i32)
    ensures
        r == spec_clamp_scaled(delta),
{
    let wide: i128 = delta as i128 * WHEEL_HI_RES_UNIT as i128;
    if wide < i32::MIN as i128 {
        i32::MIN
    } else if wide > i32::MAX as i128 {
        i32::MAX
    } else {
        wide as i32
    }
}

/// A session of the virtual input device; the device itself is opened and
/// configured by the caller that owns the OS handle.
#[derive(Debug)]
pub struct Handle;

impl Handle {
    pub fn new() -> Handle {
        Handle
    }

    /// Builds the record pair of one key transition.
    pub fn send_key_event(&self, sec: i64, usec: i64, code: u16, value: i32) -> (r: Vec<
        InputEventRecord,
    >)
        ensures
            r@ == seq![spec_key_record(sec, usec, code, value), spec_syn_record(sec, usec)],
    {
        let mut records: Vec<InputEventRecord> = Vec::new();
        records.push(InputEventRecord { time_sec: sec, time_usec: usec, kind: EV_KEY, code, value });
        records.push(
            InputEventRecord { time_sec: sec, time_usec: usec, kind: EV_SYN, code: 0, value: 0 },
        );
        proof {
            assert(records@ =~= seq![
                spec_key_record(sec, usec, code, value),
                spec_syn_record(sec, usec),
            ]);
        }
        records
    }

    /// Builds the record sequence one canonical event writes to the virtual
    /// device. An event with no mapping fails with the one injection error
    /// and writes nothing.
    pub fn send(&self, event: &EventType, sec: i64, usec: i64) -> (r: Result<
        Vec<InputEventRecord>,
        SimulateError,
    >)
        ensures
            r matches Ok(records) ==> Some(records@) == spec_send(*event, sec, usec),
            r is Err <==> spec_send(*event, sec, usec) is None,
    {
        match event {
            EventType::KeyPress(key) => match code_from_key(*key) {
                Some(code) => if code <= 0xffff {
                    Ok(self.send_key_event(sec, usec, code as u16, 1))
                } else {
                    Err(SimulateError)
                },
                None => Err(SimulateError),
            },
            EventType::KeyRelease(key) => match code_from_key(*key) {
                Some(code) => if code <= 0xffff {
                    Ok(self.send_key_event(sec, usec, code as u16, 0))
                } else {
                    Err(SimulateError)
                },
                None => Err(SimulateError),
            },
            EventType::ButtonPress(button) => match button {
                Button::Left => Ok(self.send_key_event(sec, usec, BTN_LEFT, 1)),
                Button::Right => Ok(self.send_key_event(sec, usec, BTN_RIGHT, 1)),
                Button::Middle => Ok(self.send_key_event(sec, usec, BTN_MIDDLE, 1)),
                Button::Unknown(_) => Err(SimulateError),
            },
            EventType::ButtonRelease(button) => match button {
                Button::Left => Ok(self.send_key_event(sec, usec, BTN_LEFT, 0)),
                Button::Right => Ok(self.send_key_event(sec, usec, BTN_RIGHT, 0)),
                Button::Middle => Ok(self.send_key_event(sec, usec, BTN_MIDDLE, 0)),
                Button::Unknown(_) => Err(SimulateError),
            },
            EventType::MouseMove { x, y } => {
                let mut records: Vec<InputEventRecord> = Vec::new();
                records.push(
                    InputEventRecord {
                        time_sec: sec,
                        time_usec: usec,
                        kind: EV_REL,
                        code: REL_X,
                        value: clamp_i32(*x),
                    },
                );
                records.push(
                    InputEventRecord {
                        time_sec: sec,
                        time_usec: usec,
                        kind: EV_REL,
                        code: REL_Y,
                        value: clamp_i32(*y),
                    },
                );
                records.push(
                    InputEventRecord {
                        time_sec: sec,
                        time_usec: usec,
                        kind: EV_SYN,
                        code: 0,
                        value: 0,
                    },
                );
                proof {
                    assert(records@ =~= spec_send(*event, sec, usec)->0);
                }
                Ok(records)
            },
            EventType::Wheel { delta_x, delta_y } => {
                let mut records: Vec<InputEventRecord> = Vec::new();
                records.push(
                    InputEventRecord {
                        time_sec: sec,
                        time_usec: usec,
                        kind: EV_REL,
                        code: REL_HWHEEL_HI_RES,
                        value: clamp_scaled(*delta_x),
                    },
                );
                records.push(
                    InputEventRecord {
                        time_sec: sec,
                        time_usec: usec,
                        kind: EV_REL,
                        code: REL_WHEEL_HI_RES,
                        value: clamp_scaled(*delta_y),
                    },
                );
                records.push(
                    InputEventRecord {
                        time_sec: sec,
                        time_usec: usec,
                        kind: EV_SYN,
                        code: 0,
                        value: 0,
                    },
                );
                proof {
                    assert(records@ =~= spec_send(*event, sec, usec)->0);
                }
                Ok(records)
            },
        }
    }
}

/// Builds the record sequence of one canonical event on a fresh session.
pub fn simulate(event: &EventType, sec: i64, usec: i64) -> (r: Result<
    Vec<InputEventRecord>,
    SimulateError,
>)
    ensures
        r matches Ok(records) ==> Some(records@) == spec_send(*event, sec, usec),
        r is Err <==> spec_send(*event, sec, usec) is None,
{
    let handle = Handle::new();
    handle.send(event, sec, usec)
}

/// Law: the scaled vertical wheel record keeps the sign of the delta: the
/// written value is positive, zero or negative exactly as the delta is.
pub proof fn lemma_wheel_scale_keeps_sign(delta: i64)
    ensures
        spec_clamp_scaled(delta) > 0 <==> delta > 0,
        spec_clamp_scaled(delta) < 0 <==> delta < 0,
{
}

} // verus!
