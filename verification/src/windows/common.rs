//! The Windows hook decode: validated reads of the low-level keyboard and
//! mouse hook payloads out of size-checked byte views, and the map from a
//! hook message and its payload to at most one canonical event.

use vstd::prelude::*;

use crate::rdev::Button;
use crate::rdev::Event;
use crate::rdev::EventType;
use crate::windows::keyboard::spec_code_name;
use crate::windows::keyboard::Keyboard;
use crate::windows::keycodes::key_from_code;
use crate::windows::keycodes::spec_key_from_code;

verus! {

/// The key-down hook message.
pub const WM_KEYDOWN: u32 = 0x100;

/// The key-up hook message.
pub const WM_KEYUP: u32 = 0x101;

/// The key-down hook message of a key pressed with alt held.
pub const WM_SYSKEYDOWN: u32 = 0x104;

/// The key-up hook message of a key released with alt held.
pub const WM_SYSKEYUP: u32 = 0x105;

/// The pointer-motion hook message.
pub const WM_MOUSEMOVE: u32 = 0x200;

/// The left-button press hook message.
pub const WM_LBUTTONDOWN: u32 = 0x201;

/// The left-button release hook message.
pub const WM_LBUTTONUP: u32 = 0x202;

/// The right-button press hook message.
pub const WM_RBUTTONDOWN: u32 = 0x204;

/// The right-button release hook message.
pub const WM_RBUTTONUP: u32 = 0x205;

/// The middle-button press hook message.
pub const WM_MBUTTONDOWN: u32 = 0x207;

/// The middle-button release hook message.
pub const WM_MBUTTONUP: u32 = 0x208;

/// The vertical-wheel hook message.
pub const WM_MOUSEWHEEL: u32 = 0x20A;

/// The extra-button press hook message.
pub const WM_XBUTTONDOWN: u32 = 0x20B;

/// The extra-button release hook message.
pub const WM_XBUTTONUP: u32 = 0x20C;

/// The horizontal-wheel hook message.
pub const WM_MOUSEHWHEEL: u32 = 0x20E;

/// The wheel step unit of the hook payload.
pub const WHEEL_DELTA: i32 = 120;

/// Errors of installing a low-level hook, with the OS error code.
#[derive(Debug)]
pub enum HookError {
    /// The mouse hook was rejected.
    Mouse(u32),
    /// The keyboard hook was rejected.
    Key(u32),
}

/// The unsigned 32-bit value four little-endian bytes hold.
pub open spec fn spec_u32_le(b0: u8, b1: u8, b2: u8, b3: u8) -> u32 {
    (b0 + b1 * 0x100 + b2 * 0x10000 + b3 * 0x1000000) as u32
}

/// Reads the unsigned 32-bit value of four little-endian bytes.
pub fn u32_le(b0: u8, b1: u8, b2: u8, b3: u8) -> (r: u32)
    ensures
        r == spec_u32_le(b0, b1, b2, b3),
{
    b0 as u32 + b1 as u32 * 0x100 + b2 as u32 * 0x10000 + b3 as u32 * 0x1000000
}

/// The virtual-key code a keyboard hook payload holds, at its first four
/// bytes; shorter payloads are malformed.
pub open spec fn spec_get_code(data: Seq<u8>) -> Option<u32> {
    if data.len() >= 4 {
        Some(spec_u32_le(data[0], data[1], data[2], data[3]))
    } else {
        None
    }
}

/// Reads the virtual-key code out of a keyboard hook payload.
pub fn get_code(data: &[u8]) -> (r: Option<u32>)
    ensures
        r == spec_get_code(data@),
{
    if data.len() >= 4 {
        Some(u32_le(data[0], data[1], data[2], data[3]))
    } else {
        None
    }
}

/// The scan code a keyboard hook payload holds, at bytes four to eight.
pub open spec fn spec_get_scan_code(data: Seq<u8>) -> Option<u32> {
    if data.len() >= 8 {
        Some(spec_u32_le(data[4], data[5], data[6], data[7]))
    } else {
        None
    }
}

/// Reads the scan code out of a keyboard hook payload.
pub fn get_scan_code(data: &[u8]) -> (r: Option<u32>)
    ensures
        r == spec_get_scan_code(data@),
{
    if data.len() >= 8 {
        Some(u32_le(data[4], data[5], data[6], data[7]))
    } else {
        None
    }
}

/// The pointer position a mouse hook payload holds: two signed 32-bit
/// little-endian values at its first eight bytes.
pub open spec fn spec_get_point(data: Seq<u8>) -> Option<(i32, i32)> {
    if data.len() >= 8 {
        Some(
            (
                spec_u32_le(data[0], data[1], data[2], data[3]) as i32,
                spec_u32_le(data[4], data[5], data[6], data[7]) as i32,
            ),
        )
    } else {
        None
    }
}

/// Reads the pointer position out of a mouse hook payload.
pub fn get_point(data: &[u8]) -> (r: Option<(i32, i32)>)
    ensures
        r == spec_get_point(data@),
{
    if data.len() >= 8 {
        Some(
            (
                u32_le(data[0], data[1], data[2], data[3]) as i32,
                u32_le(data[4], data[5], data[6], data[7]) as i32,
            ),
        )
    } else {
        None
    }
}

/// The high word of the button data a mouse hook payload holds at bytes
/// eight to twelve: the wheel delta or the extra-button number, depending
/// on the message.
pub open spec fn spec_get_delta(data: Seq<u8>) -> Option<u16> {
    if data.len() >= 12 {
        Some((spec_u32_le(data[8], data[9], data[10], data[11]) >> 16) as u16)
    } else {
        None
    }
}

/// Reads the high word of the button data out of a mouse hook payload.
pub fn get_delta(data: &[u8]) -> (r: Option<u16>)
    ensures
        r == spec_get_delta(data@),
{
    if data.len() >= 12 {
        Some((u32_le(data[8], data[9], data[10], data[11]) >> 16) as u16)
    } else {
        None
    }
}

/// Reads the extra-button number out of a mouse hook payload; the payload
/// stores it in the same word as the wheel delta.
pub fn get_button_code(data: &[u8]) -> (r: Option<u16>)
    ensures
        r == spec_get_delta(data@),
{
    get_delta(data)
}

/// The signed wheel step count a raw delta word denotes: the word read as
/// a signed value and divided, toward zero, by the wheel step unit.
pub open spec fn spec_wheel_steps(delta: u16) -> i64 {
    let v = delta as i16 as int;
    if v >= 0 {
        (v / (WHEEL_DELTA as int)) as i64
    } else {
        (-((-v) / (WHEEL_DELTA as int))) as i64
    }
}

/// Computes the signed wheel step count of a raw delta word.
pub fn wheel_steps(delta: u16) -> (r: i64)
    ensures
        r == spec_wheel_steps(delta),
{
    let v = delta as i16;
    if v >= 0 {
        (v as u32 / WHEEL_DELTA as u32) as i64
    } else {
        let mag = if v == i16::MIN {
            32768u32
        } else {
            (-v) as u32
        };
        -((mag / WHEEL_DELTA as u32) as i64)
    }
}

/// The canonical event a hook message and its payload decode to, if any:
/// key messages decode through the virtual-key table on the low word of the
/// code, the named buttons map directly, extra buttons carry their number,
/// motion carries the position, wheels divide the delta word into signed
/// steps, and every other message decodes to nothing. A payload too short
/// for its message is malformed and decodes to nothing.
pub open spec fn spec_convert(param: u32, data: Seq<u8>) -> Option<EventType> {
    if param == WM_KEYDOWN || param == WM_SYSKEYDOWN {
        match spec_get_code(data) {
            Some(code) => Some(EventType::KeyPress(spec_key_from_code(code as u16))),
            None => None,
        }
    } else if param == WM_KEYUP || param == WM_SYSKEYUP {
        match spec_get_code(data) {
            Some(code) => Some(EventType::KeyRelease(spec_key_from_code(code as u16))),
            None => None,
        }
    } else if param == WM_LBUTTONDOWN {
        Some(EventType::ButtonPress(Button::Left))
    } else if param == WM_LBUTTONUP {
        Some(EventType::ButtonRelease(Button::Left))
    } else if param == WM_MBUTTONDOWN {
        Some(EventType::ButtonPress(Button::Middle))
    } else if param == WM_MBUTTONUP {
        Some(EventType::ButtonRelease(Button::Middle))
    } else if param == WM_RBUTTONDOWN {
        Some(EventType::ButtonPress(Button::Right))
    } else if param == WM_RBUTTONUP {
        Some(EventType::ButtonRelease(Button::Right))
    } else if param == WM_XBUTTONDOWN {
        match spec_get_delta(data) {
            Some(code) => Some(EventType::ButtonPress(Button::Unknown(code as u8))),
            None => None,
        }
    } else if param == WM_XBUTTONUP {
        match spec_get_delta(data) {
            Some(code) => Some(EventType::ButtonRelease(Button::Unknown(code as u8))),
            None => None,
        }
    } else if param == WM_MOUSEMOVE {
        match spec_get_point(data) {
            Some((x, y)) => Some(EventType::MouseMove { x: x as i64, y: y as i64 }),
            None => None,
        }
    } else if param == WM_MOUSEWHEEL {
        match spec_get_delta(data) {
            Some(delta) => Some(
                EventType::Wheel { delta_x: 0, delta_y: spec_wheel_steps(delta) },
            ),
            None => None,
        }
    } else if param == WM_MOUSEHWHEEL {
        match spec_get_delta(data) {
            Some(delta) => Some(
                EventType::Wheel { delta_x: spec_wheel_steps(delta), delta_y: 0 },
            ),
            None => None,
        }
    } else {
        None
    }
}

/// Decodes one hook message and its payload to a canonical event, if it has
/// one.
pub fn convert(param: u32, data: &[u8]) -> (r: Option<EventType>)
    ensures
        r == spec_convert(param, data@),
{
    if param == WM_KEYDOWN || param == WM_SYSKEYDOWN {
        match get_code(data) {
            Some(code) => Some(EventType::KeyPress(key_from_code(code as u16))),
            None => None,
        }
    } else if param == WM_KEYUP || param == WM_SYSKEYUP {
        match get_code(data) {
            Some(code) => Some(EventType::KeyRelease(key_from_code(code as u16))),
            None => None,
        }
    } else if param == WM_LBUTTONDOWN {
        Some(EventType::ButtonPress(Button::Left))
    } else if param == WM_LBUTTONUP {
        Some(EventType::ButtonRelease(Button::Left))
    } else if param == WM_MBUTTONDOWN {
        Some(EventType::ButtonPress(Button::Middle))
    } else if param == WM_MBUTTONUP {
        Some(EventType::ButtonRelease(Button::Middle))
    } else if param == WM_RBUTTONDOWN {
        Some(EventType::ButtonPress(Button::Right))
    } else if param == WM_RBUTTONUP {
        Some(EventType::ButtonRelease(Button::Right))
    } else if param == WM_XBUTTONDOWN {
        match get_button_code(data) {
            Some(code) => Some(EventType::ButtonPress(Button::Unknown(code as u8))),
            None => None,
        }
    } else if param == WM_XBUTTONUP {
        match get_button_code(data) {
            Some(code) => Some(EventType::ButtonRelease(Button::Unknown(code as u8))),
            None => None,
        }
    } else if param == WM_MOUSEMOVE {
        match get_point(data) {
            Some((x, y)) => Some(EventType::MouseMove { x: x as i64, y: y as i64 }),
            None => None,
        }
    } else if param == WM_MOUSEWHEEL {
        match get_delta(data) {
            Some(delta) => Some(EventType::Wheel { delta_x: 0, delta_y: wheel_steps(delta) }),
            None => None,
        }
    } else if param == WM_MOUSEHWHEEL {
        match get_delta(data) {
            Some(delta) => Some(EventType::Wheel { delta_x: wheel_steps(delta), delta_y: 0 }),
            None => None,
        }
    } else {
        None
    }
}

/// Builds the delivered event of one hook message, as the hook procedure
/// does: the decoded canonical type, the reception time, and, for key
/// presses only, the name the resolver gives the virtual-key code under the
/// session's state image.
pub fn raw_event(keyboard: &Keyboard, param: u32, data: &[u8], time: u64) -> (r: Option<Event>)
    ensures
        r is Some <==> spec_convert(param, data@) is Some,
        r matches Some(ev) ==> {
            &&& Some(ev.event_type) == spec_convert(param, data@)
            &&& ev.time == time
            &&& (ev.event_type matches EventType::KeyPress(_) ==> {
                let code = spec_get_code(data@)->0 as u16;
                &&& (ev.name is Some <==> spec_code_name(keyboard.view_state(), code) is Some)
                &&& (ev.name matches Some(n) ==> n@ == seq![
                    spec_code_name(keyboard.view_state(), code)->0,
                ])
            })
            &&& !(ev.event_type matches EventType::KeyPress(_)) ==> ev.name is None
        },
{
    match convert(param, data) {
        Some(event_type) => {
            let name = match event_type {
                EventType::KeyPress(_) => {
                    match get_code(data) {
                        Some(code) => keyboard.get_code_name(code as u16),
                        None => None,
                    }
                },
                _ => None,
            };
            Some(Event { event_type, time, name })
        },
        None => None,
    }
}

} // verus!
