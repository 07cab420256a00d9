//! The X11 capture decode: a validated view of the raw record datum the
//! record extension hands over, and the map from its fields to at most one
//! canonical event, consulting the resolver for key-press names.

use vstd::prelude::*;

use crate::linux::keyboard::spec_name_char;
use crate::linux::keyboard::Keyboard;
use crate::linux::keycodes::key_from_code;
use crate::linux::keycodes::spec_key_from_code;
use crate::rdev::Button;
use crate::rdev::Event;
use crate::rdev::EventType;

verus! {

/// The X protocol code of a key press.
pub const KEY_PRESS: i32 = 2;

/// The X protocol code of a key release.
pub const KEY_RELEASE: i32 = 3;

/// The X protocol code of a button press.
pub const BUTTON_PRESS: i32 = 4;

/// The X protocol code of a button release.
pub const BUTTON_RELEASE: i32 = 5;

/// The X protocol code of a pointer motion.
pub const MOTION_NOTIFY: i32 = 6;

/// The fields of one record datum, read out of the raw buffer: the protocol
/// event type, the keycode or button code, the root-window pointer position,
/// and the modifier mask at the time of the event.
#[derive(Debug, Copy, Clone, PartialEq, Eq, Structural)]
pub struct XRecordDatum {
    pub type_: u8,
    pub code: u8,
    pub root_x: i16,
    pub root_y: i16,
    pub state: u16,
}

/// The unsigned 16-bit value two little-endian bytes hold.
pub open spec fn spec_u16_le(lo: u8, hi: u8) -> u16 {
    (lo + hi * 256) as u16
}

/// Reads the unsigned 16-bit value of two little-endian bytes.
pub fn u16_le(lo: u8, hi: u8) -> (r: u16)
    ensures
        r == spec_u16_le(lo, hi),
{
    lo as u16 + hi as u16 * 256
}

/// The record datum a raw buffer holds, by the layout of the record
/// extension's datum: event type at byte zero, code at byte one, the root
/// position as little-endian 16-bit values at bytes twenty and twenty-two,
/// and the modifier mask at twenty-eight. Shorter buffers are malformed and
/// decode to nothing.
pub open spec fn spec_datum_from_bytes(data: Seq<u8>) -> Option<XRecordDatum> {
    if data.len() >= 30 {
        Some(
            XRecordDatum {
                type_: data[0],
                code: data[1],
                root_x: spec_u16_le(data[20], data[21]) as i16,
                root_y: spec_u16_le(data[22], data[23]) as i16,
                state: spec_u16_le(data[28], data[29]),
            },
        )
    } else {
        None
    }
}

/// Decodes one record datum out of a size-checked byte view.
pub fn datum_from_bytes(data: &[u8]) -> (r: Option<XRecordDatum>)
    ensures
        r == spec_datum_from_bytes(data@),
{
    if data.len() >= 30 {
        Some(
            XRecordDatum {
                type_: data[0],
                code: data[1],
                root_x: u16_le(data[20], data[21]) as i16,
                root_y: u16_le(data[22], data[23]) as i16,
                state: u16_le(data[28], data[29]),
            },
        )
    } else {
        None
    }
}

/// The canonical event of one raw X event, if it has one: key events decode
/// through the keycode table, the first three buttons are named, buttons
/// four and five are the vertical wheel (whose release is dropped), other
/// buttons pass as unknown, motion carries the position, and every other
/// protocol event decodes to nothing.
pub open spec fn spec_convert_event(code: u8, type_: i32, x: i64, y: i64) -> Option<EventType> {
    if type_ == KEY_PRESS {
        Some(EventType::KeyPress(spec_key_from_code(code as u32)))
    } else if type_ == KEY_RELEASE {
        Some(EventType::KeyRelease(spec_key_from_code(code as u32)))
    } else if type_ == BUTTON_PRESS {
        if code == 1 {
            Some(EventType::ButtonPress(Button::Left))
        } else if code == 2 {
            Some(EventType::ButtonPress(Button::Middle))
        } else if code == 3 {
            Some(EventType::ButtonPress(Button::Right))
        } else if code == 4 {
            Some(EventType::Wheel { delta_x: 0i64, delta_y: 1i64 })
        } else if code == 5 {
            Some(EventType::Wheel { delta_x: 0i64, delta_y: -1i64 })
        } else {
            Some(EventType::ButtonPress(Button::Unknown(code)))
        }
    } else if type_ == BUTTON_RELEASE {
        if code == 1 {
            Some(EventType::ButtonRelease(Button::Left))
        } else if code == 2 {
            Some(EventType::ButtonRelease(Button::Middle))
        } else if code == 3 {
            Some(EventType::ButtonRelease(Button::Right))
        } else if code == 4 || code == 5 {
            None
        } else {
            Some(EventType::ButtonRelease(Button::Unknown(code)))
        }
    } else if type_ == MOTION_NOTIFY {
        Some(EventType::MouseMove { x, y })
    } else {
        None
    }
}

/// Decodes one raw X event to its canonical event, if it has one.
pub fn convert_event(code: u8, type_: i32, x: i64, y: i64) -> (r: Option<EventType>)
    ensures
        r == spec_convert_event(code, type_, x, y),
{
    if type_ == KEY_PRESS {
        Some(EventType::KeyPress(key_from_code(code as u32)))
    } else if type_ == KEY_RELEASE {
        Some(EventType::KeyRelease(key_from_code(code as u32)))
    } else if type_ == BUTTON_PRESS {
        match code {
            1 => Some(EventType::ButtonPress(Button::Left)),
            2 => Some(EventType::ButtonPress(Button::Middle)),
            3 => Some(EventType::ButtonPress(Button::Right)),
            4 => Some(EventType::Wheel { delta_x: 0, delta_y: 1 }),
            5 => Some(EventType::Wheel { delta_x: 0, delta_y: -1 }),
            code => Some(EventType::ButtonPress(Button::Unknown(code))),
        }
    } else if type_ == BUTTON_RELEASE {
        match code {
            1 => Some(EventType::ButtonRelease(Button::Left)),
            2 => Some(EventType::ButtonRelease(Button::Middle)),
            3 => Some(EventType::ButtonRelease(Button::Right)),
            4 | 5 => None,
            code => Some(EventType::ButtonRelease(Button::Unknown(code))),
        }
    } else if type_ == MOTION_NOTIFY {
        Some(EventType::MouseMove { x, y })
    } else {
        None
    }
}

/// Builds the delivered event of one raw X event: the canonical type, the
/// reception time, and, for key presses only, the name the resolver gives
/// the keycode under the raw modifier mask. The raw code is truncated to the
/// byte the record datum carries, as the record extension reports it.
pub fn convert(
    keyboard: &Keyboard,
    code: u32,
    state: u32,
    type_: i32,
    x: i64,
    y: i64,
    time: u64,
) -> (r: Option<Event>)
    ensures
        r is Some <==> spec_convert_event((code & 0xff) as u8, type_, x, y) is Some,
        r matches Some(ev) ==> {
            &&& Some(ev.event_type) == spec_convert_event((code & 0xff) as u8, type_, x, y)
            &&& ev.time == time
            &&& (ev.event_type matches EventType::KeyPress(_) ==> {
                &&& ev.name is Some <==> spec_name_char(code, state) is Some
                &&& (ev.name matches Some(n) ==> n@ == seq![spec_name_char(code, state)->0])
            })
            &&& !(ev.event_type matches EventType::KeyPress(_)) ==> ev.name is None
        },
{
    let event_type = convert_event((code & 0xff) as u8, type_, x, y);
    match event_type {
        Some(event_type) => {
            let name = match event_type {
                EventType::KeyPress(_) => keyboard.name_from_code(code, state),
                _ => None,
            };
            Some(Event { event_type, time, name })
        },
        None => None,
    }
}

/// Builds the delivered event of one record datum, as the capture loop does
/// for each datum the record extension reports.
pub fn record_event(keyboard: &Keyboard, data: &[u8], time: u64) -> (r: Option<Event>)
    ensures
        spec_datum_from_bytes(data@) is None ==> r is None,
        r matches Some(ev) ==> {
            let datum = spec_datum_from_bytes(data@)->0;
            &&& Some(ev.event_type) == spec_convert_event(
                datum.code,
                datum.type_ as i32,
                datum.root_x as i64,
                datum.root_y as i64,
            )
            &&& ev.time == time
        },
{
    match datum_from_bytes(data) {
        Some(datum) => {
            let r = convert(
                keyboard,
                datum.code as u32,
                datum.state as u32,
                datum.type_ as i32,
                datum.root_x as i64,
                datum.root_y as i64,
                time,
            );
            proof {
                let c = datum.code;
                assert((c as u32 & 0xff) as u8 == c) by (bit_vector);
            }
            r
        },
        None => None,
    }
}

} // verus!
