//! Canonical event model: physical key identities, mouse buttons, the tagged
//! event union, the timed event record, and the error types of the capture,
//! grab, display and injection engines.

use vstd::prelude::*;

verus! {

/// Errors raised while installing a system-wide capture hook. Setup failures
/// are synchronous and fatal to the call that requested the hook.
#[derive(Debug)]
#[non_exhaustive]
pub enum ListenError {
    /// The event tap could not be created (macOS).
    EventTapError,
    /// The run-loop source could not be created (macOS).
    LoopSourceError,
    /// No display connection (Linux).
    MissingDisplayError,
    /// The layout resolver could not be created (Linux).
    KeyboardError,
    /// The record context could not be enabled (Linux).
    RecordContextEnablingError,
    /// The record context could not be created (Linux).
    RecordContextError,
    /// The record extension is unavailable (Linux).
    XRecordExtensionError,
    /// The keyboard hook was rejected, with the OS error code (Windows).
    KeyHookError(u32),
    /// The mouse hook was rejected, with the OS error code (Windows).
    MouseHookError(u32),
}

/// Errors raised while installing a system-wide intercepting hook.
#[derive(Debug)]
#[non_exhaustive]
pub enum GrabError {
    /// The event tap could not be created (macOS).
    EventTapError,
    /// The run-loop source could not be created (macOS).
    LoopSourceError,
    /// No display connection (Linux).
    MissingDisplayError,
    /// The layout resolver could not be created (Linux).
    KeyboardError,
    /// The keyboard hook was rejected, with the OS error code (Windows).
    KeyHookError(u32),
    /// The mouse hook was rejected, with the OS error code (Windows).
    MouseHookError(u32),
    /// Re-injecting a replacement event failed.
    SimulateError,
    /// A device file could not be read or watched, with the OS error code.
    IoError(i32),
}

/// Errors raised by the display-size query.
#[non_exhaustive]
#[derive(Debug)]
pub enum DisplayError {
    NoDisplay,
    ConversionError,
}

impl From<SimulateError> for GrabError {
    /// The conversion the grab engine applies when re-injection fails.
    fn from(_err: SimulateError) -> (r: GrabError) {
        GrabError::SimulateError
    }
}

impl vstd::std_specs::convert::FromSpecImpl<SimulateError> for GrabError {
    open spec fn obeys_from_spec() -> bool {
        true
    }

    open spec fn from_spec(_err: SimulateError) -> GrabError {
        GrabError::SimulateError
    }
}

/// Error of a failed injection. Every failed injection reports this same
/// value, and a failed call never corrupts state for later calls.
#[derive(Debug, PartialEq, Eq, Structural)]
pub struct SimulateError;

/// Key names based on the physical location on the device, referenced against
/// a QWERTY layout. `Alt` merges the option key (macOS) with Alt (Windows,
/// Linux); `MetaLeft`/`MetaRight` merge windows, super and command. Do not
/// use these to decide which character a press produces: that depends on the
/// layout and lives in `Event::name`. Codes with no canonical identity are
/// carried through exactly as `Unknown(code)`.
#[derive(Debug, Copy, Clone, PartialEq, Eq, Hash, Structural)]
pub enum Key {
    Alt,
    AltGr,
    Backspace,
    CapsLock,
    ControlLeft,
    ControlRight,
    Delete,
    DownArrow,
    End,
    Escape,
    F1,
    F10,
    F11,
    F12,
    F2,
    F3,
    F4,
    F5,
    F6,
    F7,
    F8,
    F9,
    Home,
    LeftArrow,
    MetaLeft,
    MetaRight,
    PageDown,
    PageUp,
    Return,
    RightArrow,
    ShiftLeft,
    ShiftRight,
    Space,
    Tab,
    UpArrow,
    PrintScreen,
    ScrollLock,
    Pause,
    NumLock,
    BackQuote,
    Num1,
    Num2,
    Num3,
    Num4,
    Num5,
    Num6,
    Num7,
    Num8,
    Num9,
    Num0,
    Minus,
    Equal,
    KeyQ,
    KeyW,
    KeyE,
    KeyR,
    KeyT,
    KeyY,
    KeyU,
    KeyI,
    KeyO,
    KeyP,
    LeftBracket,
    RightBracket,
    KeyA,
    KeyS,
    KeyD,
    KeyF,
    KeyG,
    KeyH,
    KeyJ,
    KeyK,
    KeyL,
    SemiColon,
    Quote,
    BackSlash,
    IntlBackslash,
    KeyZ,
    KeyX,
    KeyC,
    KeyV,
    KeyB,
    KeyN,
    KeyM,
    Comma,
    Dot,
    Slash,
    Insert,
    KpReturn,
    KpMinus,
    KpPlus,
    KpMultiply,
    KpDivide,
    Kp0,
    Kp1,
    Kp2,
    Kp3,
    Kp4,
    Kp5,
    Kp6,
    Kp7,
    Kp8,
    Kp9,
    KpDelete,
    Function,
    Unknown(u32),
}

/// Standard mouse buttons. Mice with more than three buttons report
/// `Unknown`, with a platform-specific code.
#[derive(Debug, Copy, Clone, PartialEq, Eq, Hash, Structural)]
pub enum Button {
    Left,
    Right,
    Middle,
    Unknown(u8),
}

/// The canonical event union. Key variants name physical positions on a
/// QWERTY reference; layout-correct characters come from `Event::name`.
#[derive(Debug, Copy, Clone, PartialEq, Eq, Structural)]
pub enum EventType {
    KeyPress(Key),
    KeyRelease(Key),
    ButtonPress(Button),
    ButtonRelease(Button),
    /// Absolute position in pixels; `x: 0, y: 0` is the top left corner.
    MouseMove { x: i64, y: i64 },
    /// `delta_y` is vertical scroll, `delta_x` horizontal. Positive values
    /// scroll up or right, negative values down or left.
    Wheel { delta_x: i64, delta_y: i64 },
}

/// An event as delivered by the capture engines: the raw event decoded to its
/// canonical type, the reception time in milliseconds since the epoch, and,
/// for key presses only, the layout-resolved text where resolution succeeded.
#[derive(Debug, Clone, PartialEq)]
pub struct Event {
    pub time: u64,
    pub name: Option<String>,
    pub event_type: EventType,
}

/// A keyboard session that tracks modifier and dead-key state without
/// touching the OS: feeding it the events of a key sequence tells which
/// text that sequence would produce.
pub trait KeyboardState {
    /// Advances the state as if `event_type` happened and returns the text
    /// resolved for it, if any.
    fn add(&mut self, event_type: &EventType) -> Option<String>;

    /// Clears all latch and dead-key state, as if newly constructed.
    fn reset(&mut self);
}

/// ASCII lowering of one character: the uppercase letters fold to their
/// lowercase forms, every other character is kept.
pub open spec fn spec_lower_char(c: char) -> char {
    if 65 <= c as u32 && c as u32 <= 90 {
        ((c as u32 + 32) as u8) as char
    } else {
        c
    }
}

/// ASCII lowering of a character sequence.
pub open spec fn spec_lower_chars(s: Seq<char>) -> Seq<char> {
    s.map_values(|c: char| spec_lower_char(c))
}

/// The key a lowercased name denotes, if any. Names are the canonical key
/// names, letters by their single character.
pub open spec fn spec_key_from_name(n: Seq<char>) -> Option<Key> {
    if n == "alt"@ {
        Some(Key::Alt)
    } else if n == "altgr"@ {
        Some(Key::AltGr)
    } else if n == "backspace"@ {
        Some(Key::Backspace)
    } else if n == "capslock"@ {
        Some(Key::CapsLock)
    } else if n == "controlleft"@ {
        Some(Key::ControlLeft)
    } else if n == "controlright"@ {
        Some(Key::ControlRight)
    } else if n == "delete"@ {
        Some(Key::Delete)
    } else if n == "downarrow"@ {
        Some(Key::DownArrow)
    } else if n == "end"@ {
        Some(Key::End)
    } else if n == "escape"@ {
        Some(Key::Escape)
    } else if n == "f1"@ {
        Some(Key::F1)
    } else if n == "f10"@ {
        Some(Key::F10)
    } else if n == "f11"@ {
        Some(Key::F11)
    } else if n == "f12"@ {
        Some(Key::F12)
    } else if n == "f2"@ {
        Some(Key::F2)
    } else if n == "f3"@ {
        Some(Key::F3)
    } else if n == "f4"@ {
        Some(Key::F4)
    } else if n == "f5"@ {
        Some(Key::F5)
    } else if n == "f6"@ {
        Some(Key::F6)
    } else if n == "f7"@ {
        Some(Key::F7)
    } else if n == "f8"@ {
        Some(Key::F8)
    } else if n == "f9"@ {
        Some(Key::F9)
    } else if n == "home"@ {
        Some(Key::Home)
    } else if n == "leftarrow"@ {
        Some(Key::LeftArrow)
    } else if n == "metaleft"@ {
        Some(Key::MetaLeft)
    } else if n == "metaright"@ {
        Some(Key::MetaRight)
    } else if n == "pagedown"@ {
        Some(Key::PageDown)
    } else if n == "pageup"@ {
        Some(Key::PageUp)
    } else if n == "return"@ {
        Some(Key::Return)
    } else if n == "rightarrow"@ {
        Some(Key::RightArrow)
    } else if n == "shiftleft"@ {
        Some(Key::ShiftLeft)
    } else if n == "shiftright"@ {
        Some(Key::ShiftRight)
    } else if n == "space"@ {
        Some(Key::Space)
    } else if n == "tab"@ {
        Some(Key::Tab)
    } else if n == "uparrow"@ {
        Some(Key::UpArrow)
    } else if n == "printscreen"@ {
        Some(Key::PrintScreen)
    } else if n == "pause"@ {
        Some(Key::Pause)
    } else if n == "backquote"@ {
        Some(Key::BackQuote)
    } else if n == "num1"@ {
        Some(Key::Num1)
    } else if n == "num2"@ {
        Some(Key::Num2)
    } else if n == "num3"@ {
        Some(Key::Num3)
    } else if n == "num4"@ {
        Some(Key::Num4)
    } else if n == "num5"@ {
        Some(Key::Num5)
    } else if n == "num6"@ {
        Some(Key::Num6)
    } else if n == "num7"@ {
        Some(Key::Num7)
    } else if n == "num8"@ {
        Some(Key::Num8)
    } else if n == "num9"@ {
        Some(Key::Num9)
    } else if n == "num0"@ {
        Some(Key::Num0)
    } else if n == "minus"@ {
        Some(Key::Minus)
    } else if n == "equal"@ {
        Some(Key::Equal)
    } else if n == "q"@ {
        Some(Key::KeyQ)
    } else if n == "w"@ {
        Some(Key::KeyW)
    } else if n == "e"@ {
        Some(Key::KeyE)
    } else if n == "r"@ {
        Some(Key::KeyR)
    } else if n == "t"@ {
        Some(Key::KeyT)
    } else if n == "y"@ {
        Some(Key::KeyY)
    } else if n == "u"@ {
        Some(Key::KeyU)
    } else if n == "i"@ {
        Some(Key::KeyI)
    } else if n == "o"@ {
        Some(Key::KeyO)
    } else if n == "p"@ {
        Some(Key::KeyP)
    } else if n == "leftbracket"@ {
        Some(Key::LeftBracket)
    } else if n == "rightbracket"@ {
        Some(Key::RightBracket)
    } else if n == "a"@ {
        Some(Key::KeyA)
    } else if n == "s"@ {
        Some(Key::KeyS)
    } else if n == "d"@ {
        Some(Key::KeyD)
    } else if n == "f"@ {
        Some(Key::KeyF)
    } else if n == "g"@ {
        Some(Key::KeyG)
    } else if n == "h"@ {
        Some(Key::KeyH)
    } else if n == "j"@ {
        Some(Key::KeyJ)
    } else if n == "k"@ {
        Some(Key::KeyK)
    } else if n == "l"@ {
        Some(Key::KeyL)
    } else if n == "semicolon"@ {
        Some(Key::SemiColon)
    } else if n == "quote"@ {
        Some(Key::Quote)
    } else if n == "backslash"@ {
        Some(Key::BackSlash)
    } else if n == "intlbackslash"@ {
        Some(Key::IntlBackslash)
    } else if n == "z"@ {
        Some(Key::KeyZ)
    } else if n == "x"@ {
        Some(Key::KeyX)
    } else if n == "c"@ {
        Some(Key::KeyC)
    } else if n == "v"@ {
        Some(Key::KeyV)
    } else if n == "b"@ {
        Some(Key::KeyB)
    } else if n == "n"@ {
        Some(Key::KeyN)
    } else if n == "m"@ {
        Some(Key::KeyM)
    } else if n == "comma"@ {
        Some(Key::Comma)
    } else if n == "dot"@ {
        Some(Key::Dot)
    } else if n == "slash"@ {
        Some(Key::Slash)
    } else if n == "insert"@ {
        Some(Key::Insert)
    } else if n == "kpreturn"@ {
        Some(Key::KpReturn)
    } else if n == "kpminus"@ {
        Some(Key::KpMinus)
    } else if n == "kpplus"@ {
        Some(Key::KpPlus)
    } else if n == "kpmultiply"@ {
        Some(Key::KpMultiply)
    } else if n == "kpdivide"@ {
        Some(Key::KpDivide)
    } else if n == "kp0"@ {
        Some(Key::Kp0)
    } else if n == "kp1"@ {
        Some(Key::Kp1)
    } else if n == "kp2"@ {
        Some(Key::Kp2)
    } else if n == "kp3"@ {
        Some(Key::Kp3)
    } else if n == "kp4"@ {
        Some(Key::Kp4)
    } else if n == "kp5"@ {
        Some(Key::Kp5)
    } else if n == "kp6"@ {
        Some(Key::Kp6)
    } else if n == "kp7"@ {
        Some(Key::Kp7)
    } else if n == "kp8"@ {
        Some(Key::Kp8)
    } else if n == "kp9"@ {
        Some(Key::Kp9)
    } else if n == "kpdelete"@ {
        Some(Key::KpDelete)
    } else if n == "function"@ {
        Some(Key::Function)
    } else {
        None
    }
}

/// ASCII lowering of a string into its character sequence.
fn lower_chars(s: &str) -> (r: Vec<char>)
    ensures
        r@ == spec_lower_chars(s@),
{
    let n = s.unicode_len();
    let mut v: Vec<char> = Vec::new();
    let mut i: usize = 0;
    while i < n
        invariant
            i <= n,
            n == s@.len(),
            v@.len() == i,
            forall|j: int| 0 <= j < i ==> v@[j] == spec_lower_char(s@[j]),
        decreases n - i,
    {
        let c = s.get_char(i);
        let u = c as u32;
        if 65 <= u && u <= 90 {
            v.push(((u + 32) as u8) as char);
        } else {
            v.push(c);
        }
        i += 1;
    }
    proof {
        assert(v@ =~= spec_lower_chars(s@));
    }
    v
}

/// Whether the collected characters equal the characters of `p`.
fn chars_eq_str(v: &Vec<char>, p: &str) -> (r: bool)
    ensures
        r == (v@ == p@),
{
    let n = p.unicode_len();
    if v.len() != n {
        return false;
    }
    let mut i: usize = 0;
    while i < n
        invariant
            i <= n,
            n == p@.len(),
            v@.len() == n,
            forall|j: int| 0 <= j < i ==> v@[j] == p@[j],
        decreases n - i,
    {
        if v[i] != p.get_char(i) {
            return false;
        }
        i += 1;
    }
    proof {
        assert(v@ =~= p@);
    }
    true
}

impl Key {
    /// Looks a key up by name, matching ASCII-case-insensitively; `None`
    /// when the name denotes no key.
    pub fn from_str(s: &str) -> (r: Option<Key>)
        ensures
            r == spec_key_from_name(spec_lower_chars(s@)),
    {
        let lowered = lower_chars(s);
        if chars_eq_str(&lowered, "alt") {
            return Some(Key::Alt);
        }
        if chars_eq_str(&lowered, "altgr") {
            return Some(Key::AltGr);
        }
        if chars_eq_str(&lowered, "backspace") {
            return Some(Key::Backspace);
        }
        if chars_eq_str(&lowered, "capslock") {
            return Some(Key::CapsLock);
        }
        if chars_eq_str(&lowered, "controlleft") {
            return Some(Key::ControlLeft);
        }
        if chars_eq_str(&lowered, "controlright") {
            return Some(Key::ControlRight);
        }
        if chars_eq_str(&lowered, "delete") {
            return Some(Key::Delete);
        }
        if chars_eq_str(&lowered, "downarrow") {
            return Some(Key::DownArrow);
        }
        if chars_eq_str(&lowered, "end") {
            return Some(Key::End);
        }
        if chars_eq_str(&lowered, "escape") {
            return Some(Key::Escape);
        }
        if chars_eq_str(&lowered, "f1") {
            return Some(Key::F1);
        }
        if chars_eq_str(&lowered, "f10") {
            return Some(Key::F10);
        }
        if chars_eq_str(&lowered, "f11") {
            return Some(Key::F11);
        }
        if chars_eq_str(&lowered, "f12") {
            return Some(Key::F12);
        }
        if chars_eq_str(&lowered, "f2") {
            return Some(Key::F2);
        }
        if chars_eq_str(&lowered, "f3") {
            return Some(Key::F3);
        }
        if chars_eq_str(&lowered, "f4") {
            return Some(Key::F4);
        }
        if chars_eq_str(&lowered, "f5") {
            return Some(Key::F5);
        }
        if chars_eq_str(&lowered, "f6") {
            return Some(Key::F6);
        }
        if chars_eq_str(&lowered, "f7") {
            return Some(Key::F7);
        }
        if chars_eq_str(&lowered, "f8") {
            return Some(Key::F8);
        }
        if chars_eq_str(&lowered, "f9") {
            return Some(Key::F9);
        }
        if chars_eq_str(&lowered, "home") {
            return Some(Key::Home);
        }
        if chars_eq_str(&lowered, "leftarrow") {
            return Some(Key::LeftArrow);
        }
        if chars_eq_str(&lowered, "metaleft") {
            return Some(Key::MetaLeft);
        }
        if chars_eq_str(&lowered, "metaright") {
            return Some(Key::MetaRight);
        }
        if chars_eq_str(&lowered, "pagedown") {
            return Some(Key::PageDown);
        }
        if chars_eq_str(&lowered, "pageup") {
            return Some(Key::PageUp);
        }
        if chars_eq_str(&lowered, "return") {
            return Some(Key::Return);
        }
        if chars_eq_str(&lowered, "rightarrow") {
            return Some(Key::RightArrow);
        }
        if chars_eq_str(&lowered, "shiftleft") {
            return Some(Key::ShiftLeft);
        }
        if chars_eq_str(&lowered, "shiftright") {
            return Some(Key::ShiftRight);
        }
        if chars_eq_str(&lowered, "space") {
            return Some(Key::Space);
        }
        if chars_eq_str(&lowered, "tab") {
            return Some(Key::Tab);
        }
        if chars_eq_str(&lowered, "uparrow") {
            return Some(Key::UpArrow);
        }
        if chars_eq_str(&lowered, "printscreen") {
            return Some(Key::PrintScreen);
        }
        if chars_eq_str(&lowered, "pause") {
            return Some(Key::Pause);
        }
        if chars_eq_str(&lowered, "backquote") {
            return Some(Key::BackQuote);
        }
        if chars_eq_str(&lowered, "num1") {
            return Some(Key::Num1);
        }
        if chars_eq_str(&lowered, "num2") {
            return Some(Key::Num2);
        }
        if chars_eq_str(&lowered, "num3") {
            return Some(Key::Num3);
        }
        if chars_eq_str(&lowered, "num4") {
            return Some(Key::Num4);
        }
        if chars_eq_str(&lowered, "num5") {
            return Some(Key::Num5);
        }
        if chars_eq_str(&lowered, "num6") {
            return Some(Key::Num6);
        }
        if chars_eq_str(&lowered, "num7") {
            return Some(Key::Num7);
        }
        if chars_eq_str(&lowered, "num8") {
            return Some(Key::Num8);
        }
        if chars_eq_str(&lowered, "num9") {
            return Some(Key::Num9);
        }
        if chars_eq_str(&lowered, "num0") {
            return Some(Key::Num0);
        }
        if chars_eq_str(&lowered, "minus") {
            return Some(Key::Minus);
        }
        if chars_eq_str(&lowered, "equal") {
            return Some(Key::Equal);
        }
        if chars_eq_str(&lowered, "q") {
            return Some(Key::KeyQ);
        }
        if chars_eq_str(&lowered, "w") {
            return Some(Key::KeyW);
        }
        if chars_eq_str(&lowered, "e") {
            return Some(Key::KeyE);
        }
        if chars_eq_str(&lowered, "r") {
            return Some(Key::KeyR);
        }
        if chars_eq_str(&lowered, "t") {
            return Some(Key::KeyT);
        }
        if chars_eq_str(&lowered, "y") {
            return Some(Key::KeyY);
        }
        if chars_eq_str(&lowered, "u") {
            return Some(Key::KeyU);
        }
        if chars_eq_str(&lowered, "i") {
            return Some(Key::KeyI);
        }
        if chars_eq_str(&lowered, "o") {
            return Some(Key::KeyO);
        }
        if chars_eq_str(&lowered, "p") {
            return Some(Key::KeyP);
        }
        if chars_eq_str(&lowered, "leftbracket") {
            return Some(Key::LeftBracket);
        }
        if chars_eq_str(&lowered, "rightbracket") {
            return Some(Key::RightBracket);
        }
        if chars_eq_str(&lowered, "a") {
            return Some(Key::KeyA);
        }
        if chars_eq_str(&lowered, "s") {
            return Some(Key::KeyS);
        }
        if chars_eq_str(&lowered, "d") {
            return Some(Key::KeyD);
        }
        if chars_eq_str(&lowered, "f") {
            return Some(Key::KeyF);
        }
        if chars_eq_str(&lowered, "g") {
            return Some(Key::KeyG);
        }
        if chars_eq_str(&lowered, "h") {
            return Some(Key::KeyH);
        }
        if chars_eq_str(&lowered, "j") {
            return Some(Key::KeyJ);
        }
        if chars_eq_str(&lowered, "k") {
            return Some(Key::KeyK);
        }
        if chars_eq_str(&lowered, "l") {
            return Some(Key::KeyL);
        }
        if chars_eq_str(&lowered, "semicolon") {
            return Some(Key::SemiColon);
        }
        if chars_eq_str(&lowered, "quote") {
            return Some(Key::Quote);
        }
        if chars_eq_str(&lowered, "backslash") {
            return Some(Key::BackSlash);
        }
        if chars_eq_str(&lowered, "intlbackslash") {
            return Some(Key::IntlBackslash);
        }
        if chars_eq_str(&lowered, "z") {
            return Some(Key::KeyZ);
        }
        if chars_eq_str(&lowered, "x") {
            return Some(Key::KeyX);
        }
        if chars_eq_str(&lowered, "c") {
            return Some(Key::KeyC);
        }
        if chars_eq_str(&lowered, "v") {
            return Some(Key::KeyV);
        }
        if chars_eq_str(&lowered, "b") {
            return Some(Key::KeyB);
        }
        if chars_eq_str(&lowered, "n") {
            return Some(Key::KeyN);
        }
        if chars_eq_str(&lowered, "m") {
            return Some(Key::KeyM);
        }
        if chars_eq_str(&lowered, "comma") {
            return Some(Key::Comma);
        }
        if chars_eq_str(&lowered, "dot") {
            return Some(Key::Dot);
        }
        if chars_eq_str(&lowered, "slash") {
            return Some(Key::Slash);
        }
        if chars_eq_str(&lowered, "insert") {
            return Some(Key::Insert);
        }
        if chars_eq_str(&lowered, "kpreturn") {
            return Some(Key::KpReturn);
        }
        if chars_eq_str(&lowered, "kpminus") {
            return Some(Key::KpMinus);
        }
        if chars_eq_str(&lowered, "kpplus") {
            return Some(Key::KpPlus);
        }
        if chars_eq_str(&lowered, "kpmultiply") {
            return Some(Key::KpMultiply);
        }
        if chars_eq_str(&lowered, "kpdivide") {
            return Some(Key::KpDivide);
        }
        if chars_eq_str(&lowered, "kp0") {
            return Some(Key::Kp0);
        }
        if chars_eq_str(&lowered, "kp1") {
            return Some(Key::Kp1);
        }
        if chars_eq_str(&lowered, "kp2") {
            return Some(Key::Kp2);
        }
        if chars_eq_str(&lowered, "kp3") {
            return Some(Key::Kp3);
        }
        if chars_eq_str(&lowered, "kp4") {
            return Some(Key::Kp4);
        }
        if chars_eq_str(&lowered, "kp5") {
            return Some(Key::Kp5);
        }
        if chars_eq_str(&lowered, "kp6") {
            return Some(Key::Kp6);
        }
        if chars_eq_str(&lowered, "kp7") {
            return Some(Key::Kp7);
        }
        if chars_eq_str(&lowered, "kp8") {
            return Some(Key::Kp8);
        }
        if chars_eq_str(&lowered, "kp9") {
            return Some(Key::Kp9);
        }
        if chars_eq_str(&lowered, "kpdelete") {
            return Some(Key::KpDelete);
        }
        if chars_eq_str(&lowered, "function") {
            return Some(Key::Function);
        }
        None
    }
}

} // verus!
