//! The macOS keycode table: the bidirectional map between canonical keys
//! and virtual keycodes, plus the decode of system-defined special keys.

use vstd::prelude::*;

use crate::rdev::Key;

verus! {

/// Platform code of a canonical key; partial, keys with no equivalent on
/// this platform yield `None` and `Unknown` codes pass through.
pub open spec fn spec_code_from_key(key: Key) -> Option<u16> {
    match key {
        Key::Alt => Some(58),
        Key::AltGr => Some(61),
        Key::Backspace => Some(51),
        Key::CapsLock => Some(57),
        Key::ControlLeft => Some(59),
        Key::ControlRight => Some(62),
        Key::DownArrow => Some(125),
        Key::Escape => Some(53),
        Key::F1 => Some(122),
        Key::F10 => Some(109),
        Key::F11 => Some(103),
        Key::F12 => Some(111),
        Key::F2 => Some(120),
        Key::F3 => Some(99),
        Key::F4 => Some(118),
        Key::F5 => Some(96),
        Key::F6 => Some(97),
        Key::F7 => Some(98),
        Key::F8 => Some(100),
        Key::F9 => Some(101),
        Key::LeftArrow => Some(123),
        Key::MetaLeft => Some(55),
        Key::MetaRight => Some(54),
        Key::Return => Some(36),
        Key::RightArrow => Some(124),
        Key::ShiftLeft => Some(56),
        Key::ShiftRight => Some(60),
        Key::Space => Some(49),
        Key::Tab => Some(48),
        Key::UpArrow => Some(126),
        Key::BackQuote => Some(50),
        Key::Num1 => Some(18),
        Key::Num2 => Some(19),
        Key::Num3 => Some(20),
        Key::Num4 => Some(21),
        Key::Num5 => Some(23),
        Key::Num6 => Some(22),
        Key::Num7 => Some(26),
        Key::Num8 => Some(28),
        Key::Num9 => Some(25),
        Key::Num0 => Some(29),
        Key::Minus => Some(27),
        Key::Equal => Some(24),
        Key::KeyQ => Some(12),
        Key::KeyW => Some(13),
        Key::KeyE => Some(14),
        Key::KeyR => Some(15),
        Key::KeyT => Some(17),
        Key::KeyY => Some(16),
        Key::KeyU => Some(32),
        Key::KeyI => Some(34),
        Key::KeyO => Some(31),
        Key::KeyP => Some(35),
        Key::LeftBracket => Some(33),
        Key::RightBracket => Some(30),
        Key::KeyA => Some(0),
        Key::KeyS => Some(1),
        Key::KeyD => Some(2),
        Key::KeyF => Some(3),
        Key::KeyG => Some(5),
        Key::KeyH => Some(4),
        Key::KeyJ => Some(38),
        Key::KeyK => Some(40),
        Key::KeyL => Some(37),
        Key::SemiColon => Some(41),
        Key::Quote => Some(39),
        Key::BackSlash => Some(42),
        Key::KeyZ => Some(6),
        Key::KeyX => Some(7),
        Key::KeyC => Some(8),
        Key::KeyV => Some(9),
        Key::KeyB => Some(11),
        Key::KeyN => Some(45),
        Key::KeyM => Some(46),
        Key::Comma => Some(43),
        Key::Dot => Some(47),
        Key::Slash => Some(44),
        Key::Function => Some(63),
        Key::Unknown(code) => if code <= 0xffff { Some(code as u16) } else { None },
        _ => None,
    }
}

/// Canonical key of a platform code; total, unmatched codes fall back to
/// `Unknown`.
pub open spec fn spec_key_from_code(code: u16) -> Key {
    match code {
        58 => Key::Alt,
        61 => Key::AltGr,
        51 => Key::Backspace,
        57 => Key::CapsLock,
        59 => Key::ControlLeft,
        125 => Key::DownArrow,
        53 => Key::Escape,
        122 => Key::F1,
        109 => Key::F10,
        103 => Key::F11,
        111 => Key::F12,
        120 => Key::F2,
        99 => Key::F3,
        118 => Key::F4,
        96 => Key::F5,
        97 => Key::F6,
        98 => Key::F7,
        100 => Key::F8,
        101 => Key::F9,
        123 => Key::LeftArrow,
        55 => Key::MetaLeft,
        54 => Key::MetaRight,
        36 => Key::Return,
        124 => Key::RightArrow,
        56 => Key::ShiftLeft,
        60 => Key::ShiftRight,
        49 => Key::Space,
        48 => Key::Tab,
        126 => Key::UpArrow,
        50 => Key::BackQuote,
        18 => Key::Num1,
        19 => Key::Num2,
        20 => Key::Num3,
        21 => Key::Num4,
        23 => Key::Num5,
        22 => Key::Num6,
        26 => Key::Num7,
        28 => Key::Num8,
        25 => Key::Num9,
        29 => Key::Num0,
        27 => Key::Minus,
        24 => Key::Equal,
        12 => Key::KeyQ,
        13 => Key::KeyW,
        14 => Key::KeyE,
        15 => Key::KeyR,
        17 => Key::KeyT,
        16 => Key::KeyY,
        32 => Key::KeyU,
        34 => Key::KeyI,
        31 => Key::KeyO,
        35 => Key::KeyP,
        33 => Key::LeftBracket,
        30 => Key::RightBracket,
        0 => Key::KeyA,
        1 => Key::KeyS,
        2 => Key::KeyD,
        3 => Key::KeyF,
        5 => Key::KeyG,
        4 => Key::KeyH,
        38 => Key::KeyJ,
        40 => Key::KeyK,
        37 => Key::KeyL,
        41 => Key::SemiColon,
        39 => Key::Quote,
        42 => Key::BackSlash,
        6 => Key::KeyZ,
        7 => Key::KeyX,
        8 => Key::KeyC,
        9 => Key::KeyV,
        11 => Key::KeyB,
        45 => Key::KeyN,
        46 => Key::KeyM,
        43 => Key::Comma,
        47 => Key::Dot,
        44 => Key::Slash,
        63 => Key::Function,
        _ => Key::Unknown(code as u32),
    }
}

pub fn code_from_key(key: Key) -> (r: Option<u16>)
    ensures
        r == spec_code_from_key(key),
{
    match key {
        Key::Alt => Some(58),
        Key::AltGr => Some(61),
        Key::Backspace => Some(51),
        Key::CapsLock => Some(57),
        Key::ControlLeft => Some(59),
        Key::ControlRight => Some(62),
        Key::DownArrow => Some(125),
        Key::Escape => Some(53),
        Key::F1 => Some(122),
        Key::F10 => Some(109),
        Key::F11 => Some(103),
        Key::F12 => Some(111),
        Key::F2 => Some(120),
        Key::F3 => Some(99),
        Key::F4 => Some(118),
        Key::F5 => Some(96),
        Key::F6 => Some(97),
        Key::F7 => Some(98),
        Key::F8 => Some(100),
        Key::F9 => Some(101),
        Key::LeftArrow => Some(123),
        Key::MetaLeft => Some(55),
        Key::MetaRight => Some(54),
        Key::Return => Some(36),
        Key::RightArrow => Some(124),
        Key::ShiftLeft => Some(56),
        Key::ShiftRight => Some(60),
        Key::Space => Some(49),
        Key::Tab => Some(48),
        Key::UpArrow => Some(126),
        Key::BackQuote => Some(50),
        Key::Num1 => Some(18),
        Key::Num2 => Some(19),
        Key::Num3 => Some(20),
        Key::Num4 => Some(21),
        Key::Num5 => Some(23),
        Key::Num6 => Some(22),
        Key::Num7 => Some(26),
        Key::Num8 => Some(28),
        Key::Num9 => Some(25),
        Key::Num0 => Some(29),
        Key::Minus => Some(27),
        Key::Equal => Some(24),
        Key::KeyQ => Some(12),
        Key::KeyW => Some(13),
        Key::KeyE => Some(14),
        Key::KeyR => Some(15),
        Key::KeyT => Some(17),
        Key::KeyY => Some(16),
        Key::KeyU => Some(32),
        Key::KeyI => Some(34),
        Key::KeyO => Some(31),
        Key::KeyP => Some(35),
        Key::LeftBracket => Some(33),
        Key::RightBracket => Some(30),
        Key::KeyA => Some(0),
        Key::KeyS => Some(1),
        Key::KeyD => Some(2),
        Key::KeyF => Some(3),
        Key::KeyG => Some(5),
        Key::KeyH => Some(4),
        Key::KeyJ => Some(38),
        Key::KeyK => Some(40),
        Key::KeyL => Some(37),
        Key::SemiColon => Some(41),
        Key::Quote => Some(39),
        Key::BackSlash => Some(42),
        Key::KeyZ => Some(6),
        Key::KeyX => Some(7),
        Key::KeyC => Some(8),
        Key::KeyV => Some(9),
        Key::KeyB => Some(11),
        Key::KeyN => Some(45),
        Key::KeyM => Some(46),
        Key::Comma => Some(43),
        Key::Dot => Some(47),
        Key::Slash => Some(44),
        Key::Function => Some(63),
        Key::Unknown(code) => if code <= 0xffff { Some(code as u16) } else { None },
        _ => None,
    }
}

pub fn key_from_code(code: u16) -> (r: Key)
    ensures
        r == spec_key_from_code(code),
{
    match code {
        58 => Key::Alt,
        61 => Key::AltGr,
        51 => Key::Backspace,
        57 => Key::CapsLock,
        59 => Key::ControlLeft,
        125 => Key::DownArrow,
        53 => Key::Escape,
        122 => Key::F1,
        109 => Key::F10,
        103 => Key::F11,
        111 => Key::F12,
        120 => Key::F2,
        99 => Key::F3,
        118 => Key::F4,
        96 => Key::F5,
        97 => Key::F6,
        98 => Key::F7,
        100 => Key::F8,
        101 => Key::F9,
        123 => Key::LeftArrow,
        55 => Key::MetaLeft,
        54 => Key::MetaRight,
        36 => Key::Return,
        124 => Key::RightArrow,
        56 => Key::ShiftLeft,
        60 => Key::ShiftRight,
        49 => Key::Space,
        48 => Key::Tab,
        126 => Key::UpArrow,
        50 => Key::BackQuote,
        18 => Key::Num1,
        19 => Key::Num2,
        20 => Key::Num3,
        21 => Key::Num4,
        23 => Key::Num5,
        22 => Key::Num6,
        26 => Key::Num7,
        28 => Key::Num8,
        25 => Key::Num9,
        29 => Key::Num0,
        27 => Key::Minus,
        24 => Key::Equal,
        12 => Key::KeyQ,
        13 => Key::KeyW,
        14 => Key::KeyE,
        15 => Key::KeyR,
        17 => Key::KeyT,
        16 => Key::KeyY,
        32 => Key::KeyU,
        34 => Key::KeyI,
        31 => Key::KeyO,
        35 => Key::KeyP,
        33 => Key::LeftBracket,
        30 => Key::RightBracket,
        0 => Key::KeyA,
        1 => Key::KeyS,
        2 => Key::KeyD,
        3 => Key::KeyF,
        5 => Key::KeyG,
        4 => Key::KeyH,
        38 => Key::KeyJ,
        40 => Key::KeyK,
        37 => Key::KeyL,
        41 => Key::SemiColon,
        39 => Key::Quote,
        42 => Key::BackSlash,
        6 => Key::KeyZ,
        7 => Key::KeyX,
        8 => Key::KeyC,
        9 => Key::KeyV,
        11 => Key::KeyB,
        45 => Key::KeyN,
        46 => Key::KeyM,
        43 => Key::Comma,
        47 => Key::Dot,
        44 => Key::Slash,
        63 => Key::Function,
        _ => Key::Unknown(code as u32),
    }
}

/// Law: the table is a left inverse of decoding. Every platform code the OS
/// can produce decodes to a key that encodes back to exactly that code;
/// codes that collapse to `Unknown` round-trip exactly.
pub proof fn lemma_key_code_round_trip(code: u16)
    ensures
        spec_code_from_key(spec_key_from_code(code)) == Some(code),
{
}

/// Canonical key of a system-defined special-key code, for the few special
/// keys that have a canonical identity; media and brightness codes have
/// none and yield `None`.
pub open spec fn spec_key_from_special_key(code: u32) -> Option<Key> {
    match code {
        4 => Some(Key::CapsLock),
        8 => Some(Key::UpArrow),
        9 => Some(Key::DownArrow),
        10 => Some(Key::NumLock),
        _ => None,
    }
}

pub fn key_from_special_key(code: u32) -> (r: Option<Key>)
    ensures
        r == spec_key_from_special_key(code),
{
    match code {
        4 => Some(Key::CapsLock),
        8 => Some(Key::UpArrow),
        9 => Some(Key::DownArrow),
        10 => Some(Key::NumLock),
        _ => None,
    }
}

} // verus!
