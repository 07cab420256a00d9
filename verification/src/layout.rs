//! The built-in US/QWERTY reference layout: the deterministic resolution
//! the keyboard resolvers use to turn a physical key and the latched
//! modifiers into a character. Letters answer to shift and caps-lock
//! combined exclusively; the other printable keys answer to shift alone.
//! Keypad and control keys produce no character here.

use vstd::prelude::*;

use crate::rdev::Key;

verus! {

/// Whether the key is a letter key, whose case caps-lock flips.
pub open spec fn spec_is_letter(key: Key) -> bool {
    match key {
        Key::KeyQ => true,
        Key::KeyW => true,
        Key::KeyE => true,
        Key::KeyR => true,
        Key::KeyT => true,
        Key::KeyY => true,
        Key::KeyU => true,
        Key::KeyI => true,
        Key::KeyO => true,
        Key::KeyP => true,
        Key::KeyA => true,
        Key::KeyS => true,
        Key::KeyD => true,
        Key::KeyF => true,
        Key::KeyG => true,
        Key::KeyH => true,
        Key::KeyJ => true,
        Key::KeyK => true,
        Key::KeyL => true,
        Key::KeyZ => true,
        Key::KeyX => true,
        Key::KeyC => true,
        Key::KeyV => true,
        Key::KeyB => true,
        Key::KeyN => true,
        Key::KeyM => true,
        _ => false,
    }
}

/// The character of a key at the unshifted level, `None` for keys that
/// produce no character on the reference layout.
pub open spec fn spec_unshifted_char(key: Key) -> Option<char> {
    match key {
        Key::KeyQ => Some('q'),
        Key::KeyW => Some('w'),
        Key::KeyE => Some('e'),
        Key::KeyR => Some('r'),
        Key::KeyT => Some('t'),
        Key::KeyY => Some('y'),
        Key::KeyU => Some('u'),
        Key::KeyI => Some('i'),
        Key::KeyO => Some('o'),
        Key::KeyP => Some('p'),
        Key::KeyA => Some('a'),
        Key::KeyS => Some('s'),
        Key::KeyD => Some('d'),
        Key::KeyF => Some('f'),
        Key::KeyG => Some('g'),
        Key::KeyH => Some('h'),
        Key::KeyJ => Some('j'),
        Key::KeyK => Some('k'),
        Key::KeyL => Some('l'),
        Key::KeyZ => Some('z'),
        Key::KeyX => Some('x'),
        Key::KeyC => Some('c'),
        Key::KeyV => Some('v'),
        Key::KeyB => Some('b'),
        Key::KeyN => Some('n'),
        Key::KeyM => Some('m'),
        Key::Num1 => Some('1'),
        Key::Num2 => Some('2'),
        Key::Num3 => Some('3'),
        Key::Num4 => Some('4'),
        Key::Num5 => Some('5'),
        Key::Num6 => Some('6'),
        Key::Num7 => Some('7'),
        Key::Num8 => Some('8'),
        Key::Num9 => Some('9'),
        Key::Num0 => Some('0'),
        Key::Minus => Some('-'),
        Key::Equal => Some('='),
        Key::LeftBracket => Some('['),
        Key::RightBracket => Some(']'),
        Key::SemiColon => Some(';'),
        Key::Quote => Some('\''),
        Key::BackQuote => Some('`'),
        Key::BackSlash => Some('\\'),
        Key::IntlBackslash => Some('\\'),
        Key::Comma => Some(','),
        Key::Dot => Some('.'),
        Key::Slash => Some('/'),
        Key::Space => Some(' '),
        _ => None,
    }
}

/// The character of a key at the shifted level.
pub open spec fn spec_shifted_char(key: Key) -> Option<char> {
    match key {
        Key::KeyQ => Some('Q'),
        Key::KeyW => Some('W'),
        Key::KeyE => Some('E'),
        Key::KeyR => Some('R'),
        Key::KeyT => Some('T'),
        Key::KeyY => Some('Y'),
        Key::KeyU => Some('U'),
        Key::KeyI => Some('I'),
        Key::KeyO => Some('O'),
        Key::KeyP => Some('P'),
        Key::KeyA => Some('A'),
        Key::KeyS => Some('S'),
        Key::KeyD => Some('D'),
        Key::KeyF => Some('F'),
        Key::KeyG => Some('G'),
        Key::KeyH => Some('H'),
        Key::KeyJ => Some('J'),
        Key::KeyK => Some('K'),
        Key::KeyL => Some('L'),
        Key::KeyZ => Some('Z'),
        Key::KeyX => Some('X'),
        Key::KeyC => Some('C'),
        Key::KeyV => Some('V'),
        Key::KeyB => Some('B'),
        Key::KeyN => Some('N'),
        Key::KeyM => Some('M'),
        Key::Num1 => Some('!'),
        Key::Num2 => Some('@'),
        Key::Num3 => Some('#'),
        Key::Num4 => Some('$'),
        Key::Num5 => Some('%'),
        Key::Num6 => Some('^'),
        Key::Num7 => Some('&'),
        Key::Num8 => Some('*'),
        Key::Num9 => Some('('),
        Key::Num0 => Some(')'),
        Key::Minus => Some('_'),
        Key::Equal => Some('+'),
        Key::LeftBracket => Some('{'),
        Key::RightBracket => Some('}'),
        Key::SemiColon => Some(':'),
        Key::Quote => Some('\"'),
        Key::BackQuote => Some('~'),
        Key::BackSlash => Some('|'),
        Key::IntlBackslash => Some('|'),
        Key::Comma => Some('<'),
        Key::Dot => Some('>'),
        Key::Slash => Some('?'),
        Key::Space => Some(' '),
        _ => None,
    }
}

/// The resolution of a key under the latched modifiers: letters are
/// uppercase exactly when shift and caps-lock disagree, the other keys
/// shift with shift alone.
pub open spec fn spec_resolve_char(key: Key, shift: bool, caps_lock: bool) -> Option<char> {
    if spec_is_letter(key) {
        if shift != caps_lock {
            spec_shifted_char(key)
        } else {
            spec_unshifted_char(key)
        }
    } else if shift {
        spec_shifted_char(key)
    } else {
        spec_unshifted_char(key)
    }
}

fn is_letter(key: Key) -> (r: bool)
    ensures
        r == spec_is_letter(key),
{
    match key {
        Key::KeyQ => true,
        Key::KeyW => true,
        Key::KeyE => true,
        Key::KeyR => true,
        Key::KeyT => true,
        Key::KeyY => true,
        Key::KeyU => true,
        Key::KeyI => true,
        Key::KeyO => true,
        Key::KeyP => true,
        Key::KeyA => true,
        Key::KeyS => true,
        Key::KeyD => true,
        Key::KeyF => true,
        Key::KeyG => true,
        Key::KeyH => true,
        Key::KeyJ => true,
        Key::KeyK => true,
        Key::KeyL => true,
        Key::KeyZ => true,
        Key::KeyX => true,
        Key::KeyC => true,
        Key::KeyV => true,
        Key::KeyB => true,
        Key::KeyN => true,
        Key::KeyM => true,
        _ => false,
    }
}

fn unshifted_char(key: Key) -> (r: Option<char>)
    ensures
        r == spec_unshifted_char(key),
{
    match key {
        Key::KeyQ => Some('q'),
        Key::KeyW => Some('w'),
        Key::KeyE => Some('e'),
        Key::KeyR => Some('r'),
        Key::KeyT => Some('t'),
        Key::KeyY => Some('y'),
        Key::KeyU => Some('u'),
        Key::KeyI => Some('i'),
        Key::KeyO => Some('o'),
        Key::KeyP => Some('p'),
        Key::KeyA => Some('a'),
        Key::KeyS => Some('s'),
        Key::KeyD => Some('d'),
        Key::KeyF => Some('f'),
        Key::KeyG => Some('g'),
        Key::KeyH => Some('h'),
        Key::KeyJ => Some('j'),
        Key::KeyK => Some('k'),
        Key::KeyL => Some('l'),
        Key::KeyZ => Some('z'),
        Key::KeyX => Some('x'),
        Key::KeyC => Some('c'),
        Key::KeyV => Some('v'),
        Key::KeyB => Some('b'),
        Key::KeyN => Some('n'),
        Key::KeyM => Some('m'),
        Key::Num1 => Some('1'),
        Key::Num2 => Some('2'),
        Key::Num3 => Some('3'),
        Key::Num4 => Some('4'),
        Key::Num5 => Some('5'),
        Key::Num6 => Some('6'),
        Key::Num7 => Some('7'),
        Key::Num8 => Some('8'),
        Key::Num9 => Some('9'),
        Key::Num0 => Some('0'),
        Key::Minus => Some('-'),
        Key::Equal => Some('='),
        Key::LeftBracket => Some('['),
        Key::RightBracket => Some(']'),
        Key::SemiColon => Some(';'),
        Key::Quote => Some('\''),
        Key::BackQuote => Some('`'),
        Key::BackSlash => Some('\\'),
        Key::IntlBackslash => Some('\\'),
        Key::Comma => Some(','),
        Key::Dot => Some('.'),
        Key::Slash => Some('/'),
        Key::Space => Some(' '),
        _ => None,
    }
}

fn shifted_char(key: Key) -> (r: Option<char>)
    ensures
        r == spec_shifted_char(key),
{
    match key {
        Key::KeyQ => Some('Q'),
        Key::KeyW => Some('W'),
        Key::KeyE => Some('E'),
        Key::KeyR => Some('R'),
        Key::KeyT => Some('T'),
        Key::KeyY => Some('Y'),
        Key::KeyU => Some('U'),
        Key::KeyI => Some('I'),
        Key::KeyO => Some('O'),
        Key::KeyP => Some('P'),
        Key::KeyA => Some('A'),
        Key::KeyS => Some('S'),
        Key::KeyD => Some('D'),
        Key::KeyF => Some('F'),
        Key::KeyG => Some('G'),
        Key::KeyH => Some('H'),
        Key::KeyJ => Some('J'),
        Key::KeyK => Some('K'),
        Key::KeyL => Some('L'),
        Key::KeyZ => Some('Z'),
        Key::KeyX => Some('X'),
        Key::KeyC => Some('C'),
        Key::KeyV => Some('V'),
        Key::KeyB => Some('B'),
        Key::KeyN => Some('N'),
        Key::KeyM => Some('M'),
        Key::Num1 => Some('!'),
        Key::Num2 => Some('@'),
        Key::Num3 => Some('#'),
        Key::Num4 => Some('$'),
        Key::Num5 => Some('%'),
        Key::Num6 => Some('^'),
        Key::Num7 => Some('&'),
        Key::Num8 => Some('*'),
        Key::Num9 => Some('('),
        Key::Num0 => Some(')'),
        Key::Minus => Some('_'),
        Key::Equal => Some('+'),
        Key::LeftBracket => Some('{'),
        Key::RightBracket => Some('}'),
        Key::SemiColon => Some(':'),
        Key::Quote => Some('\"'),
        Key::BackQuote => Some('~'),
        Key::BackSlash => Some('|'),
        Key::IntlBackslash => Some('|'),
        Key::Comma => Some('<'),
        Key::Dot => Some('>'),
        Key::Slash => Some('?'),
        Key::Space => Some(' '),
        _ => None,
    }
}

/// Resolves a key under the latched modifiers on the reference layout.
pub fn resolve_char(key: Key, shift: bool, caps_lock: bool) -> (r: Option<char>)
    ensures
        r == spec_resolve_char(key, shift, caps_lock),
{
    if is_letter(key) {
        if shift != caps_lock {
            shifted_char(key)
        } else {
            unshifted_char(key)
        }
    } else if shift {
        shifted_char(key)
    } else {
        unshifted_char(key)
    }
}

/// Relies on String::push: appends exactly the given character.
#[verifier::external_body]
fn push_char(s: &mut String, c: char)
    ensures
        final(s)@ == old(s)@.push(c),
{
    s.push(c);
}

/// A one-character string.
pub fn char_string(c: char) -> (r: String)
    ensures
        r@ == seq![c],
{
    let mut s = String::new();
    push_char(&mut s, c);
    proof {
        assert(s@ =~= seq![c]);
    }
    s
}

/// The resolution of a key as the string the resolvers hand out.
pub fn resolve_string(key: Key, shift: bool, caps_lock: bool) -> (r: Option<String>)
    ensures
        r is Some <==> spec_resolve_char(key, shift, caps_lock) is Some,
        r matches Some(s) ==> s@ == seq![spec_resolve_char(key, shift, caps_lock)->0],
{
    match resolve_char(key, shift, caps_lock) {
        Some(c) => Some(char_string(c)),
        None => None,
    }
}

} // verus!
