//! The evdev keycode table: the bidirectional map between canonical keys
//! and the kernel input-event key codes used by the grab and injection
//! engines on Linux.

use vstd::prelude::*;

use crate::rdev::Key;

verus! {

/// Platform code of a canonical key; partial, keys with no equivalent on
/// this platform yield `None` and `Unknown` codes pass through.
pub open spec fn spec_code_from_key(key: Key) -> Option<u32> {
    match key {
        Key::Alt => Some(56),
        Key::AltGr => Some(126),
        Key::Backspace => Some(14),
        Key::CapsLock => Some(58),
        Key::ControlLeft => Some(29),
        Key::ControlRight => Some(97),
        Key::Delete => Some(110),
        Key::DownArrow => Some(108),
        Key::End => Some(107),
        Key::Escape => Some(1),
        Key::F1 => Some(59),
        Key::F2 => Some(60),
        Key::F3 => Some(61),
        Key::F4 => Some(62),
        Key::F5 => Some(63),
        Key::F6 => Some(64),
        Key::F7 => Some(65),
        Key::F8 => Some(66),
        Key::F9 => Some(67),
        Key::F10 => Some(68),
        Key::F11 => Some(87),
        Key::F12 => Some(88),
        Key::Home => Some(102),
        Key::LeftArrow => Some(105),
        Key::MetaLeft => Some(125),
        Key::PageDown => Some(109),
        Key::PageUp => Some(104),
        Key::Return => Some(28),
        Key::RightArrow => Some(106),
        Key::ShiftLeft => Some(42),
        Key::ShiftRight => Some(54),
        Key::Space => Some(57),
        Key::Tab => Some(15),
        Key::UpArrow => Some(103),
        Key::PrintScreen => Some(99),
        Key::ScrollLock => Some(70),
        Key::Pause => Some(119),
        Key::NumLock => Some(69),
        Key::BackQuote => Some(41),
        Key::Num1 => Some(2),
        Key::Num2 => Some(3),
        Key::Num3 => Some(4),
        Key::Num4 => Some(5),
        Key::Num5 => Some(6),
        Key::Num6 => Some(7),
        Key::Num7 => Some(8),
        Key::Num8 => Some(9),
        Key::Num9 => Some(10),
        Key::Num0 => Some(11),
        Key::Minus => Some(12),
        Key::Equal => Some(13),
        Key::KeyQ => Some(16),
        Key::KeyW => Some(17),
        Key::KeyE => Some(18),
        Key::KeyR => Some(19),
        Key::KeyT => Some(20),
        Key::KeyY => Some(21),
        Key::KeyU => Some(22),
        Key::KeyI => Some(23),
        Key::KeyO => Some(24),
        Key::KeyP => Some(25),
        Key::LeftBracket => Some(26),
        Key::RightBracket => Some(27),
        Key::KeyA => Some(30),
        Key::KeyS => Some(31),
        Key::KeyD => Some(32),
        Key::KeyF => Some(33),
        Key::KeyG => Some(34),
        Key::KeyH => Some(35),
        Key::KeyJ => Some(36),
        Key::KeyK => Some(37),
        Key::KeyL => Some(38),
        Key::SemiColon => Some(39),
        Key::Quote => Some(40),
        Key::BackSlash => Some(43),
        Key::IntlBackslash => Some(86),
        Key::KeyZ => Some(44),
        Key::KeyX => Some(45),
        Key::KeyC => Some(46),
        Key::KeyV => Some(47),
        Key::KeyB => Some(48),
        Key::KeyN => Some(49),
        Key::KeyM => Some(50),
        Key::Comma => Some(51),
        Key::Dot => Some(52),
        Key::Slash => Some(53),
        Key::Insert => Some(111),
        Key::KpReturn => Some(96),
        Key::KpMinus => Some(74),
        Key::KpPlus => Some(78),
        Key::KpMultiply => Some(55),
        Key::KpDivide => Some(98),
        Key::Kp0 => Some(82),
        Key::Kp1 => Some(79),
        Key::Kp2 => Some(80),
        Key::Kp3 => Some(81),
        Key::Kp4 => Some(75),
        Key::Kp5 => Some(76),
        Key::Kp6 => Some(77),
        Key::Kp7 => Some(71),
        Key::Kp8 => Some(72),
        Key::Kp9 => Some(73),
        Key::KpDelete => Some(83),
        Key::Function => Some(464),
        Key::Unknown(code) => Some(code),
        _ => None,
    }
}

/// Canonical key of a platform code; total, unmatched codes fall back to
/// `Unknown`.
pub open spec fn spec_key_from_code(code: u32) -> Key {
    match code {
        56 => Key::Alt,
        126 => Key::AltGr,
        14 => Key::Backspace,
        58 => Key::CapsLock,
        29 => Key::ControlLeft,
        97 => Key::ControlRight,
        110 => Key::Delete,
        108 => Key::DownArrow,
        107 => Key::End,
        1 => Key::Escape,
        59 => Key::F1,
        60 => Key::F2,
        61 => Key::F3,
        62 => Key::F4,
        63 => Key::F5,
        64 => Key::F6,
        65 => Key::F7,
        66 => Key::F8,
        67 => Key::F9,
        68 => Key::F10,
        87 => Key::F11,
        88 => Key::F12,
        102 => Key::Home,
        105 => Key::LeftArrow,
        125 => Key::MetaLeft,
        109 => Key::PageDown,
        104 => Key::PageUp,
        28 => Key::Return,
        106 => Key::RightArrow,
        42 => Key::ShiftLeft,
        54 => Key::ShiftRight,
        57 => Key::Space,
        15 => Key::Tab,
        103 => Key::UpArrow,
        99 => Key::PrintScreen,
        70 => Key::ScrollLock,
        119 => Key::Pause,
        69 => Key::NumLock,
        41 => Key::BackQuote,
        2 => Key::Num1,
        3 => Key::Num2,
        4 => Key::Num3,
        5 => Key::Num4,
        6 => Key::Num5,
        7 => Key::Num6,
        8 => Key::Num7,
        9 => Key::Num8,
        10 => Key::Num9,
        11 => Key::Num0,
        12 => Key::Minus,
        13 => Key::Equal,
        16 => Key::KeyQ,
        17 => Key::KeyW,
        18 => Key::KeyE,
        19 => Key::KeyR,
        20 => Key::KeyT,
        21 => Key::KeyY,
        22 => Key::KeyU,
        23 => Key::KeyI,
        24 => Key::KeyO,
        25 => Key::KeyP,
        26 => Key::LeftBracket,
        27 => Key::RightBracket,
        30 => Key::KeyA,
        31 => Key::KeyS,
        32 => Key::KeyD,
        33 => Key::KeyF,
        34 => Key::KeyG,
        35 => Key::KeyH,
        36 => Key::KeyJ,
        37 => Key::KeyK,
        38 => Key::KeyL,
        39 => Key::SemiColon,
        40 => Key::Quote,
        43 => Key::BackSlash,
        86 => Key::IntlBackslash,
        44 => Key::KeyZ,
        45 => Key::KeyX,
        46 => Key::KeyC,
        47 => Key::KeyV,
        48 => Key::KeyB,
        49 => Key::KeyN,
        50 => Key::KeyM,
        51 => Key::Comma,
        52 => Key::Dot,
        53 => Key::Slash,
        111 => Key::Insert,
        96 => Key::KpReturn,
        74 => Key::KpMinus,
        78 => Key::KpPlus,
        55 => Key::KpMultiply,
        98 => Key::KpDivide,
        82 => Key::Kp0,
        79 => Key::Kp1,
        80 => Key::Kp2,
        81 => Key::Kp3,
        75 => Key::Kp4,
        76 => Key::Kp5,
        77 => Key::Kp6,
        71 => Key::Kp7,
        72 => Key::Kp8,
        73 => Key::Kp9,
        83 => Key::KpDelete,
        464 => Key::Function,
        _ => Key::Unknown(code),
    }
}

pub fn code_from_key(key: Key) -> (r: Option<u32>)
    ensures
        r == spec_code_from_key(key),
{
    match key {
        Key::Alt => Some(56),
        Key::AltGr => Some(126),
        Key::Backspace => Some(14),
        Key::CapsLock => Some(58),
        Key::ControlLeft => Some(29),
        Key::ControlRight => Some(97),
        Key::Delete => Some(110),
        Key::DownArrow => Some(108),
        Key::End => Some(107),
        Key::Escape => Some(1),
        Key::F1 => Some(59),
        Key::F2 => Some(60),
        Key::F3 => Some(61),
        Key::F4 => Some(62),
        Key::F5 => Some(63),
        Key::F6 => Some(64),
        Key::F7 => Some(65),
        Key::F8 => Some(66),
        Key::F9 => Some(67),
        Key::F10 => Some(68),
        Key::F11 => Some(87),
        Key::F12 => Some(88),
        Key::Home => Some(102),
        Key::LeftArrow => Some(105),
        Key::MetaLeft => Some(125),
        Key::PageDown => Some(109),
        Key::PageUp => Some(104),
        Key::Return => Some(28),
        Key::RightArrow => Some(106),
        Key::ShiftLeft => Some(42),
        Key::ShiftRight => Some(54),
        Key::Space => Some(57),
        Key::Tab => Some(15),
        Key::UpArrow => Some(103),
        Key::PrintScreen => Some(99),
        Key::ScrollLock => Some(70),
        Key::Pause => Some(119),
        Key::NumLock => Some(69),
        Key::BackQuote => Some(41),
        Key::Num1 => Some(2),
        Key::Num2 => Some(3),
        Key::Num3 => Some(4),
        Key::Num4 => Some(5),
        Key::Num5 => Some(6),
        Key::Num6 => Some(7),
        Key::Num7 => Some(8),
        Key::Num8 => Some(9),
        Key::Num9 => Some(10),
        Key::Num0 => Some(11),
        Key::Minus => Some(12),
        Key::Equal => Some(13),
        Key::KeyQ => Some(16),
        Key::KeyW => Some(17),
        Key::KeyE => Some(18),
        Key::KeyR => Some(19),
        Key::KeyT => Some(20),
        Key::KeyY => Some(21),
        Key::KeyU => Some(22),
        Key::KeyI => Some(23),
        Key::KeyO => Some(24),
        Key::KeyP => Some(25),
        Key::LeftBracket => Some(26),
        Key::RightBracket => Some(27),
        Key::KeyA => Some(30),
        Key::KeyS => Some(31),
        Key::KeyD => Some(32),
        Key::KeyF => Some(33),
        Key::KeyG => Some(34),
        Key::KeyH => Some(35),
        Key::KeyJ => Some(36),
        Key::KeyK => Some(37),
        Key::KeyL => Some(38),
        Key::SemiColon => Some(39),
        Key::Quote => Some(40),
        Key::BackSlash => Some(43),
        Key::IntlBackslash => Some(86),
        Key::KeyZ => Some(44),
        Key::KeyX => Some(45),
        Key::KeyC => Some(46),
        Key::KeyV => Some(47),
        Key::KeyB => Some(48),
        Key::KeyN => Some(49),
        Key::KeyM => Some(50),
        Key::Comma => Some(51),
        Key::Dot => Some(52),
        Key::Slash => Some(53),
        Key::Insert => Some(111),
        Key::KpReturn => Some(96),
        Key::KpMinus => Some(74),
        Key::KpPlus => Some(78),
        Key::KpMultiply => Some(55),
        Key::KpDivide => Some(98),
        Key::Kp0 => Some(82),
        Key::Kp1 => Some(79),
        Key::Kp2 => Some(80),
        Key::Kp3 => Some(81),
        Key::Kp4 => Some(75),
        Key::Kp5 => Some(76),
        Key::Kp6 => Some(77),
        Key::Kp7 => Some(71),
        Key::Kp8 => Some(72),
        Key::Kp9 => Some(73),
        Key::KpDelete => Some(83),
        Key::Function => Some(464),
        Key::Unknown(code) => Some(code),
        _ => None,
    }
}

pub fn key_from_code(code: u32) -> (r: Key)
    ensures
        r == spec_key_from_code(code),
{
    match code {
        56 => Key::Alt,
        126 => Key::AltGr,
        14 => Key::Backspace,
        58 => Key::CapsLock,
        29 => Key::ControlLeft,
        97 => Key::ControlRight,
        110 => Key::Delete,
        108 => Key::DownArrow,
        107 => Key::End,
        1 => Key::Escape,
        59 => Key::F1,
        60 => Key::F2,
        61 => Key::F3,
        62 => Key::F4,
        63 => Key::F5,
        64 => Key::F6,
        65 => Key::F7,
        66 => Key::F8,
        67 => Key::F9,
        68 => Key::F10,
        87 => Key::F11,
        88 => Key::F12,
        102 => Key::Home,
        105 => Key::LeftArrow,
        125 => Key::MetaLeft,
        109 => Key::PageDown,
        104 => Key::PageUp,
        28 => Key::Return,
        106 => Key::RightArrow,
        42 => Key::ShiftLeft,
        54 => Key::ShiftRight,
        57 => Key::Space,
        15 => Key::Tab,
        103 => Key::UpArrow,
        99 => Key::PrintScreen,
        70 => Key::ScrollLock,
        119 => Key::Pause,
        69 => Key::NumLock,
        41 => Key::BackQuote,
        2 => Key::Num1,
        3 => Key::Num2,
        4 => Key::Num3,
        5 => Key::Num4,
        6 => Key::Num5,
        7 => Key::Num6,
        8 => Key::Num7,
        9 => Key::Num8,
        10 => Key::Num9,
        11 => Key::Num0,
        12 => Key::Minus,
        13 => Key::Equal,
        16 => Key::KeyQ,
        17 => Key::KeyW,
        18 => Key::KeyE,
        19 => Key::KeyR,
        20 => Key::KeyT,
        21 => Key::KeyY,
        22 => Key::KeyU,
        23 => Key::KeyI,
        24 => Key::KeyO,
        25 => Key::KeyP,
        26 => Key::LeftBracket,
        27 => Key::RightBracket,
        30 => Key::KeyA,
        31 => Key::KeyS,
        32 => Key::KeyD,
        33 => Key::KeyF,
        34 => Key::KeyG,
        35 => Key::KeyH,
        36 => Key::KeyJ,
        37 => Key::KeyK,
        38 => Key::KeyL,
        39 => Key::SemiColon,
        40 => Key::Quote,
        43 => Key::BackSlash,
        86 => Key::IntlBackslash,
        44 => Key::KeyZ,
        45 => Key::KeyX,
        46 => Key::KeyC,
        47 => Key::KeyV,
        48 => Key::KeyB,
        49 => Key::KeyN,
        50 => Key::KeyM,
        51 => Key::Comma,
        52 => Key::Dot,
        53 => Key::Slash,
        111 => Key::Insert,
        96 => Key::KpReturn,
        74 => Key::KpMinus,
        78 => Key::KpPlus,
        55 => Key::KpMultiply,
        98 => Key::KpDivide,
        82 => Key::Kp0,
        79 => Key::Kp1,
        80 => Key::Kp2,
        81 => Key::Kp3,
        75 => Key::Kp4,
        76 => Key::Kp5,
        77 => Key::Kp6,
        71 => Key::Kp7,
        72 => Key::Kp8,
        73 => Key::Kp9,
        83 => Key::KpDelete,
        464 => Key::Function,
        _ => Key::Unknown(code),
    }
}

/// Law: the table is a left inverse of decoding. Every platform code the OS
/// can produce decodes to a key that encodes back to exactly that code;
/// codes that collapse to `Unknown` round-trip exactly.
pub proof fn lemma_key_code_round_trip(code: u32)
    ensures
        spec_code_from_key(spec_key_from_code(code)) == Some(code),
{
}

/// Law: on this platform the named keys map to distinct codes, so encoding
/// a mapped named key and decoding the code restores the key.
pub proof fn lemma_code_key_round_trip(key: Key)
    requires
        spec_code_from_key(key) is Some,
        !(key is Unknown),
    ensures
        spec_key_from_code(spec_code_from_key(key)->0) == key,
{
}

} // verus!
