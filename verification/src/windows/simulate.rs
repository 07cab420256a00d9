//! The Windows injection planner: the input records the synthetic-input
//! call must receive for one canonical event. Absolute motion is normalized
//! to the 16-bit coordinate space of the virtual desktop; wheel deltas must
//! fit the 16-bit field of the record.

use vstd::prelude::*;

use crate::rdev::Button;
use crate::rdev::EventType;
use crate::rdev::SimulateError;
use crate::windows::keycodes::code_from_key;
use crate::windows::keycodes::spec_code_from_key;
use crate::windows::keycodes::spec_key_from_code;

verus! {

/// The key-release flag of a keyboard input record; a press has no flags.
pub const KEYEVENTF_KEYUP: u32 = 2;

/// The key-press flag value, named for clarity.
pub const KEYEVENTF_KEYDOWN: u32 = 0;

/// The motion flag of a mouse input record.
pub const MOUSEEVENTF_MOVE: u32 = 0x1;

/// The left-button press flag.
pub const MOUSEEVENTF_LEFTDOWN: u32 = 0x2;

/// The left-button release flag.
pub const MOUSEEVENTF_LEFTUP: u32 = 0x4;

/// The right-button press flag.
pub const MOUSEEVENTF_RIGHTDOWN: u32 = 0x8;

/// The right-button release flag.
pub const MOUSEEVENTF_RIGHTUP: u32 = 0x10;

/// The middle-button press flag.
pub const MOUSEEVENTF_MIDDLEDOWN: u32 = 0x20;

/// The middle-button release flag.
pub const MOUSEEVENTF_MIDDLEUP: u32 = 0x40;

/// The extra-button press flag.
pub const MOUSEEVENTF_XDOWN: u32 = 0x80;

/// The extra-button release flag.
pub const MOUSEEVENTF_XUP: u32 = 0x100;

/// The vertical-wheel flag.
pub const MOUSEEVENTF_WHEEL: u32 = 0x800;

/// The horizontal-wheel flag.
pub const MOUSEEVENTF_HWHEEL: u32 = 0x1000;

/// The absolute-coordinates flag.
pub const MOUSEEVENTF_ABSOLUTE: u32 = 0x8000;

/// The virtual-desktop flag.
pub const MOUSEEVENTF_VIRTUALDESK: u32 = 0x4000;

/// The wheel step unit of an input record.
pub const WHEEL_DELTA: i32 = 120;

/// One record of the synthetic-input call.
#[derive(Debug, Copy, Clone, PartialEq, Eq, Structural)]
pub enum WinInput {
    /// A keyboard record: the release flag, the virtual-key code, and the
    /// scan code.
    Keyboard { flags: u32, vk: u16, scan: u16 },
    /// A mouse record: the event flags, the button or wheel data, and the
    /// coordinates.
    Mouse { flags: u32, data: u32, dx: i32, dy: i32 },
}

/// A signed value divided by a positive one, rounding toward zero.
pub open spec fn spec_div_trunc(a: int, b: int) -> int
    recommends
        b > 0,
{
    if a >= 0 {
        a / b
    } else {
        -((-a) / b)
    }
}

/// A value clamped into the 32-bit range of a record's coordinate.
pub open spec fn spec_clamp_i32(v: int) -> i32 {
    if v < i32::MIN as int {
        i32::MIN
    } else if v > i32::MAX as int {
        i32::MAX
    } else {
        v as i32
    }
}

/// The normalized virtual-desktop coordinate of an absolute pixel position:
/// the position scaled into the 16-bit coordinate space of a screen
/// dimension, rounded toward zero and clamped into the record's range.
pub open spec fn spec_normalize(v: i64, dim: i32) -> i32
    recommends
        dim > 0,
{
    spec_clamp_i32(spec_div_trunc((v + 1) * 65535, dim as int))
}

/// Computes the normalized virtual-desktop coordinate of a pixel position.
pub fn normalize(v: i64, dim: i32) -> (r: i32)
    requires
        dim > 0,
    ensures
        r == spec_normalize(v, dim),
{
    let num: i128 = (v as i128 + 1) * 65535;
    let d = dim as u128;
    if num >= 0 {
        let q = (num as u128) / d;
        if q > i32::MAX as u128 {
            i32::MAX
        } else {
            q as i32
        }
    } else {
        let q = ((-num) as u128) / d;
        if q > 0x80000000u128 {
            i32::MIN
        } else if q == 0x80000000u128 {
            i32::MIN
        } else {
            -(q as i32)
        }
    }
}

/// The record sequence one canonical event asks of the synthetic-input
/// call, given the virtual-screen dimensions: `None` where the event has no
/// mapping (an unmapped key, a wheel delta beyond the 16-bit field, or
/// dimensions that admit no normalization).
pub open spec fn spec_simulate(e: EventType, width: i32, height: i32) -> Option<Seq<WinInput>> {
    match e {
        EventType::KeyPress(key) => match spec_code_from_key(key) {
            Some(code) => Some(
                seq![WinInput::Keyboard { flags: KEYEVENTF_KEYDOWN, vk: code, scan: 0 }],
            ),
            None => None,
        },
        EventType::KeyRelease(key) => match spec_code_from_key(key) {
            Some(code) => Some(
                seq![WinInput::Keyboard { flags: KEYEVENTF_KEYUP, vk: code, scan: 0 }],
            ),
            None => None,
        },
        EventType::ButtonPress(button) => Some(
            seq![
                match button {
                    Button::Left => WinInput::Mouse {
                        flags: MOUSEEVENTF_LEFTDOWN,
                        data: 0,
                        dx: 0,
                        dy: 0,
                    },
                    Button::Middle => WinInput::Mouse {
                        flags: MOUSEEVENTF_MIDDLEDOWN,
                        data: 0,
                        dx: 0,
                        dy: 0,
                    },
                    Button::Right => WinInput::Mouse {
                        flags: MOUSEEVENTF_RIGHTDOWN,
                        data: 0,
                        dx: 0,
                        dy: 0,
                    },
                    Button::Unknown(code) => WinInput::Mouse {
                        flags: MOUSEEVENTF_XDOWN,
                        data: code as u32,
                        dx: 0,
                        dy: 0,
                    },
                },
            ],
        ),
        EventType::ButtonRelease(button) => Some(
            seq![
                match button {
                    Button::Left => WinInput::Mouse {
                        flags: MOUSEEVENTF_LEFTUP,
                        data: 0,
                        dx: 0,
                        dy: 0,
                    },
                    Button::Middle => WinInput::Mouse {
                        flags: MOUSEEVENTF_MIDDLEUP,
                        data: 0,
                        dx: 0,
                        dy: 0,
                    },
                    Button::Right => WinInput::Mouse {
                        flags: MOUSEEVENTF_RIGHTUP,
                        data: 0,
                        dx: 0,
                        dy: 0,
                    },
                    Button::Unknown(code) => WinInput::Mouse {
                        flags: MOUSEEVENTF_XUP,
                        data: code as u32,
                        dx: 0,
                        dy: 0,
                    },
                },
            ],
        ),
        EventType::Wheel { delta_x, delta_y } => {
            if i16::MIN <= delta_x <= i16::MAX && i16::MIN <= delta_y <= i16::MAX {
                let hplan: Seq<WinInput> = if delta_x != 0 {
                    seq![
                        WinInput::Mouse {
                            flags: MOUSEEVENTF_HWHEEL,
                            data: ((delta_x * WHEEL_DELTA) as i32) as u32,
                            dx: 0,
                            dy: 0,
                        },
                    ]
                } else {
                    Seq::empty()
                };
                let vplan: Seq<WinInput> = if delta_y != 0 {
                    seq![
                        WinInput::Mouse {
                            flags: MOUSEEVENTF_WHEEL,
                            data: ((delta_y * WHEEL_DELTA) as i32) as u32,
                            dx: 0,
                            dy: 0,
                        },
                    ]
                } else {
                    Seq::empty()
                };
                Some(hplan + vplan)
            } else {
                None
            }
        },
        EventType::MouseMove { x, y } => {
            if width > 0 && height > 0 {
                Some(
                    seq![
                        WinInput::Mouse {
                            flags: MOUSEEVENTF_MOVE | MOUSEEVENTF_ABSOLUTE
                                | MOUSEEVENTF_VIRTUALDESK,
                            data: 0,
                            dx: spec_normalize(x, width),
                            dy: spec_normalize(y, height),
                        },
                    ],
                )
            } else {
                None
            }
        },
    }
}

/// Law: injection of an event with no mapping fails with the one injection
/// error and plans no record at all; every mappable event plans its full
/// record sequence.
pub fn simulate(event_type: &EventType, width: i32, height: i32) -> (r: Result<
    Vec<WinInput>,
    SimulateError,
>)
    ensures
        r matches Ok(plan) ==> Some(plan@) == spec_simulate(*event_type, width, height),
        r is Err <==> spec_simulate(*event_type, width, height) is None,
{
    match event_type {
        EventType::KeyPress(key) => match code_from_key(*key) {
            Some(code) => {
                let mut plan: Vec<WinInput> = Vec::new();
                plan.push(WinInput::Keyboard { flags: KEYEVENTF_KEYDOWN, vk: code, scan: 0 });
                proof {
                    assert(plan@ =~= spec_simulate(*event_type, width, height)->0);
                }
                Ok(plan)
            },
            None => Err(SimulateError),
        },
        EventType::KeyRelease(key) => match code_from_key(*key) {
            Some(code) => {
                let mut plan: Vec<WinInput> = Vec::new();
                plan.push(WinInput::Keyboard { flags: KEYEVENTF_KEYUP, vk: code, scan: 0 });
                proof {
                    assert(plan@ =~= spec_simulate(*event_type, width, height)->0);
                }
                Ok(plan)
            },
            None => Err(SimulateError),
        },
        EventType::ButtonPress(button) => {
            let record = match button {
                Button::Left => WinInput::Mouse {
                    flags: MOUSEEVENTF_LEFTDOWN,
                    data: 0,
                    dx: 0,
                    dy: 0,
                },
                Button::Middle => WinInput::Mouse {
                    flags: MOUSEEVENTF_MIDDLEDOWN,
                    data: 0,
                    dx: 0,
                    dy: 0,
                },
                Button::Right => WinInput::Mouse {
                    flags: MOUSEEVENTF_RIGHTDOWN,
                    data: 0,
                    dx: 0,
                    dy: 0,
                },
                Button::Unknown(code) => WinInput::Mouse {
                    flags: MOUSEEVENTF_XDOWN,
                    data: *code as u32,
                    dx: 0,
                    dy: 0,
                },
            };
            let mut plan: Vec<WinInput> = Vec::new();
            plan.push(record);
            proof {
                assert(plan@ =~= spec_simulate(*event_type, width, height)->0);
            }
            Ok(plan)
        },
        EventType::ButtonRelease(button) => {
            let record = match button {
                Button::Left => WinInput::Mouse {
                    flags: MOUSEEVENTF_LEFTUP,
                    data: 0,
                    dx: 0,
                    dy: 0,
                },
                Button::Middle => WinInput::Mouse {
                    flags: MOUSEEVENTF_MIDDLEUP,
                    data: 0,
                    dx: 0,
                    dy: 0,
                },
                Button::Right => WinInput::Mouse {
                    flags: MOUSEEVENTF_RIGHTUP,
                    data: 0,
                    dx: 0,
                    dy: 0,
                },
                Button::Unknown(code) => WinInput::Mouse {
                    flags: MOUSEEVENTF_XUP,
                    data: *code as u32,
                    dx: 0,
                    dy: 0,
                },
            };
            let mut plan: Vec<WinInput> = Vec::new();
            plan.push(record);
            proof {
                assert(plan@ =~= spec_simulate(*event_type, width, height)->0);
            }
            Ok(plan)
        },
        EventType::Wheel { delta_x, delta_y } => {
            let dx = *delta_x;
            let dy = *delta_y;
            if i16::MIN as i64 <= dx && dx <= i16::MAX as i64 && i16::MIN as i64 <= dy && dy
                <= i16::MAX as i64 {
                let mut plan: Vec<WinInput> = Vec::new();
                if dx != 0 {
                    plan.push(
                        WinInput::Mouse {
                            flags: MOUSEEVENTF_HWHEEL,
                            data: (dx as i32 * WHEEL_DELTA) as u32,
                            dx: 0,
                            dy: 0,
                        },
                    );
                }
                if dy != 0 {
                    plan.push(
                        WinInput::Mouse {
                            flags: MOUSEEVENTF_WHEEL,
                            data: (dy as i32 * WHEEL_DELTA) as u32,
                            dx: 0,
                            dy: 0,
                        },
                    );
                }
                proof {
                    assert(plan@ =~= spec_simulate(*event_type, width, height)->0);
                }
                Ok(plan)
            } else {
                Err(SimulateError)
            }
        },
        EventType::MouseMove { x, y } => {
            if width > 0 && height > 0 {
                let dx = normalize(*x, width);
                let dy = normalize(*y, height);
                let mut plan: Vec<WinInput> = Vec::new();
                plan.push(
                    WinInput::Mouse {
                        flags: MOUSEEVENTF_MOVE | MOUSEEVENTF_ABSOLUTE | MOUSEEVENTF_VIRTUALDESK,
                        data: 0,
                        dx,
                        dy,
                    },
                );
                proof {
                    assert(plan@ =~= spec_simulate(*event_type, width, height)->0);
                }
                Ok(plan)
            } else {
                Err(SimulateError)
            }
        },
    }
}

/// Law: capture and injection agree through the virtual-key table. A key
/// event decoded from any virtual-key code plans an injection that carries
/// exactly that code back to the platform.
pub proof fn lemma_capture_injection_symmetry(code: u16, width: i32, height: i32)
    ensures
        spec_simulate(EventType::KeyPress(spec_key_from_code(code)), width, height) == Some(
            seq![WinInput::Keyboard { flags: KEYEVENTF_KEYDOWN, vk: code, scan: 0 }],
        ),
        spec_simulate(EventType::KeyRelease(spec_key_from_code(code)), width, height) == Some(
            seq![WinInput::Keyboard { flags: KEYEVENTF_KEYUP, vk: code, scan: 0 }],
        ),
{
    crate::windows::keycodes::lemma_key_code_round_trip(code);
}

} // verus!
