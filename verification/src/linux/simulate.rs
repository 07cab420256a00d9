//! The X11 injection planner: the sequence of fake-input requests the test
//! extension must receive for one canonical event. Wheel events unroll into
//! press/release pairs of the scroll buttons, with the button picked by the
//! sign of the delta.

use vstd::prelude::*;

use crate::linux::keycodes::code_from_key;
use crate::linux::keycodes::spec_code_from_key;
use crate::linux::keycodes::spec_key_from_code;
use crate::rdev::Button;
use crate::rdev::EventType;
use crate::rdev::SimulateError;

verus! {

/// The scroll button of an upward wheel step.
pub const WHEEL_UP: u32 = 4;

/// The scroll button of a downward wheel step.
pub const WHEEL_DOWN: u32 = 5;

/// The scroll button of a leftward wheel step.
pub const WHEEL_LEFT: u32 = 6;

/// The scroll button of a rightward wheel step.
pub const WHEEL_RIGHT: u32 = 7;

/// One fake-input request to the X test extension.
#[derive(Debug, Copy, Clone, PartialEq, Eq, Structural)]
pub enum FakeInput {
    /// A fake key transition of a keycode.
    KeyEvent { code: u32, press: bool },
    /// A fake button transition of a pointer button.
    ButtonEvent { button: u32, press: bool },
    /// A fake absolute pointer motion.
    MotionEvent { x: i32, y: i32 },
}

/// The magnitude of a signed delta.
pub open spec fn spec_abs(v: i64) -> u64 {
    if v >= 0 {
        v as u64
    } else {
        (-(v as int)) as u64
    }
}

/// Computes the magnitude of a signed delta, total also at the extreme
/// value.
pub fn abs_u64(v: i64) -> (r: u64)
    ensures
        r == spec_abs(v),
{
    if v >= 0 {
        v as u64
    } else if v == i64::MIN {
        9223372036854775808u64
    } else {
        (-v) as u64
    }
}

/// A value clamped into the 32-bit range of a fake motion request.
pub open spec fn spec_clamp_i32(v: i64) -> i32 {
    if v < i32::MIN as i64 {
        i32::MIN
    } else if v > i32::MAX as i64 {
        i32::MAX
    } else {
        v as i32
    }
}

/// The scroll button a horizontal delta turns, by its sign.
pub open spec fn spec_wheel_code_x(delta_x: i64) -> u32 {
    if delta_x > 0 {
        WHEEL_RIGHT
    } else {
        WHEEL_LEFT
    }
}

/// The scroll button a vertical delta turns, by its sign.
pub open spec fn spec_wheel_code_y(delta_y: i64) -> u32 {
    if delta_y > 0 {
        WHEEL_UP
    } else {
        WHEEL_DOWN
    }
}

/// The request sequence of a wheel event: one press/release pair of the
/// horizontal scroll button per horizontal step, then one pair of the
/// vertical scroll button per vertical step.
pub open spec fn spec_wheel_plan(delta_x: i64, delta_y: i64) -> Seq<FakeInput> {
    Seq::new(
        (2 * spec_abs(delta_x) + 2 * spec_abs(delta_y)) as nat,
        |i: int|
            if i < 2 * spec_abs(delta_x) {
                FakeInput::ButtonEvent { button: spec_wheel_code_x(delta_x), press: i % 2 == 0 }
            } else {
                FakeInput::ButtonEvent { button: spec_wheel_code_y(delta_y), press: i % 2 == 0 }
            },
    )
}

/// The request sequence one canonical event asks of the test extension, if
/// every part of it has a platform mapping: unmapped keys and out-of-range
/// unknown buttons have no plan.
pub open spec fn spec_send_native(e: EventType) -> Option<Seq<FakeInput>> {
    match e {
        EventType::KeyPress(key) => match spec_code_from_key(key) {
            Some(code) => Some(seq![FakeInput::KeyEvent { code, press: true }]),
            None => None,
        },
        EventType::KeyRelease(key) => match spec_code_from_key(key) {
            Some(code) => Some(seq![FakeInput::KeyEvent { code, press: false }]),
            None => None,
        },
        EventType::ButtonPress(button) => Some(
            seq![
                FakeInput::ButtonEvent {
                    button: match button {
                        Button::Left => 1u32,
                        Button::Middle => 2u32,
                        Button::Right => 3u32,
                        Button::Unknown(code) => code as u32,
                    },
                    press: true,
                },
            ],
        ),
        EventType::ButtonRelease(button) => Some(
            seq![
                FakeInput::ButtonEvent {
                    button: match button {
                        Button::Left => 1u32,
                        Button::Middle => 2u32,
                        Button::Right => 3u32,
                        Button::Unknown(code) => code as u32,
                    },
                    press: false,
                },
            ],
        ),
        EventType::MouseMove { x, y } => Some(
            seq![FakeInput::MotionEvent { x: spec_clamp_i32(x), y: spec_clamp_i32(y) }],
        ),
        EventType::Wheel { delta_x, delta_y } => Some(spec_wheel_plan(delta_x, delta_y)),
    }
}

/// Unrolls one wheel axis into press/release pairs of its scroll button.
fn push_wheel_axis(plan: &mut Vec<FakeInput>, button: u32, steps: u64)
    ensures
        final(plan)@.len() == old(plan)@.len() + 2 * steps,
        forall|i: int|
            0 <= i < old(plan)@.len() ==> final(plan)@[i] == old(plan)@[i],
        forall|i: int|
            old(plan)@.len() <= i < final(plan)@.len() ==> final(plan)@[i]
                == (FakeInput::ButtonEvent { button, press: (i - old(plan)@.len()) % 2 == 0 }),
{
    let mut k: u64 = 0;
    while k < steps
        invariant
            k <= steps,
            plan@.len() == old(plan)@.len() + 2 * k,
            forall|i: int|
                0 <= i < old(plan)@.len() ==> plan@[i] == old(plan)@[i],
            forall|i: int|
                old(plan)@.len() <= i < plan@.len() ==> plan@[i] == (FakeInput::ButtonEvent {
                    button,
                    press: (i - old(plan)@.len()) % 2 == 0,
                }),
        decreases steps - k,
    {
        plan.push(FakeInput::ButtonEvent { button, press: true });
        plan.push(FakeInput::ButtonEvent { button, press: false });
        k += 1;
    }
}

/// Builds the request sequence of one canonical event, if every part of it
/// has a platform mapping.
pub fn send_native(event_type: &EventType) -> (r: Option<Vec<FakeInput>>)
    ensures
        r is Some <==> spec_send_native(*event_type) is Some,
        r matches Some(plan) ==> Some(plan@) == spec_send_native(*event_type),
{
    match event_type {
        EventType::KeyPress(key) => match code_from_key(*key) {
            Some(code) => {
                let mut plan: Vec<FakeInput> = Vec::new();
                plan.push(FakeInput::KeyEvent { code, press: true });
                proof {
                    assert(plan@ =~= seq![FakeInput::KeyEvent { code, press: true }]);
                }
                Some(plan)
            },
            None => None,
        },
        EventType::KeyRelease(key) => match code_from_key(*key) {
            Some(code) => {
                let mut plan: Vec<FakeInput> = Vec::new();
                plan.push(FakeInput::KeyEvent { code, press: false });
                proof {
                    assert(plan@ =~= seq![FakeInput::KeyEvent { code, press: false }]);
                }
                Some(plan)
            },
            None => None,
        },
        EventType::ButtonPress(button) => {
            let code: u32 = match button {
                Button::Left => 1,
                Button::Middle => 2,
                Button::Right => 3,
                Button::Unknown(code) => *code as u32,
            };
            let mut plan: Vec<FakeInput> = Vec::new();
            plan.push(FakeInput::ButtonEvent { button: code, press: true });
            proof {
                assert(plan@ =~= seq![FakeInput::ButtonEvent { button: code, press: true }]);
            }
            Some(plan)
        },
        EventType::ButtonRelease(button) => {
            let code: u32 = match button {
                Button::Left => 1,
                Button::Middle => 2,
                Button::Right => 3,
                Button::Unknown(code) => *code as u32,
            };
            let mut plan: Vec<FakeInput> = Vec::new();
            plan.push(FakeInput::ButtonEvent { button: code, press: false });
            proof {
                assert(plan@ =~= seq![FakeInput::ButtonEvent { button: code, press: false }]);
            }
            Some(plan)
        },
        EventType::MouseMove { x, y } => {
            let cx = if *x < i32::MIN as i64 {
                i32::MIN
            } else if *x > i32::MAX as i64 {
                i32::MAX
            } else {
                *x as i32
            };
            let cy = if *y < i32::MIN as i64 {
                i32::MIN
            } else if *y > i32::MAX as i64 {
                i32::MAX
            } else {
                *y as i32
            };
            let mut plan: Vec<FakeInput> = Vec::new();
            plan.push(FakeInput::MotionEvent { x: cx, y: cy });
            proof {
                assert(plan@ =~= seq![FakeInput::MotionEvent { x: cx, y: cy }]);
            }
            Some(plan)
        },
        EventType::Wheel { delta_x, delta_y } => {
            let code_x = if *delta_x > 0 {
                WHEEL_RIGHT
            } else {
                WHEEL_LEFT
            };
            let code_y = if *delta_y > 0 {
                WHEEL_UP
            } else {
                WHEEL_DOWN
            };
            let steps_x = abs_u64(*delta_x);
            let steps_y = abs_u64(*delta_y);
            let mut plan: Vec<FakeInput> = Vec::new();
            push_wheel_axis(&mut plan, code_x, steps_x);
            push_wheel_axis(&mut plan, code_y, steps_y);
            proof {
                assert(plan@ =~= spec_wheel_plan(*delta_x, *delta_y));
            }
            Some(plan)
        },
    }
}

/// Law: injection of an event with no platform mapping fails with the one
/// injection error and plans no request at all; every mappable event plans
/// its full request sequence.
pub fn simulate(event_type: &EventType) -> (r: Result<Vec<FakeInput>, SimulateError>)
    ensures
        r matches Ok(plan) ==> Some(plan@) == spec_send_native(*event_type),
        r is Err <==> spec_send_native(*event_type) is None,
{
    match send_native(event_type) {
        Some(plan) => Ok(plan),
        None => Err(SimulateError),
    }
}

/// Law: capture and injection agree through the keycode table. A key event
/// decoded from any platform keycode plans an injection that carries
/// exactly that keycode back to the platform.
pub proof fn lemma_capture_injection_symmetry(code: u32)
    ensures
        spec_send_native(EventType::KeyPress(spec_key_from_code(code))) == Some(
            seq![FakeInput::KeyEvent { code, press: true }],
        ),
        spec_send_native(EventType::KeyRelease(spec_key_from_code(code))) == Some(
            seq![FakeInput::KeyEvent { code, press: false }],
        ),
{
    crate::linux::keycodes::lemma_key_code_round_trip(code);
}

} // verus!
