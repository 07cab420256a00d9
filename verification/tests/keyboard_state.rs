use rdev::EventType;
use rdev::Key;
use rdev::Keyboard;
use rdev::linux::wayland::keyboard::Keyboard as WaylandKeyboard;
use rdev::linux::wayland::keyboard::ModIndices;
use rdev::windows::keyboard::Keyboard as WinKeyboard;
use rdev::macos::keyboard::flags_to_state;
use rdev::macos::keyboard::Keyboard as MacKeyboard;
use rdev::macos::keyboard::FLAG_CAPS_LOCK;
use rdev::macos::keyboard::FLAG_COMMAND;
use rdev::macos::keyboard::FLAG_SHIFT;

#[test]
fn test_keyboard_state() {
    // S
    let mut keyboard = Keyboard::new().unwrap();
    let char_s = keyboard.add(&EventType::KeyPress(Key::KeyS)).unwrap();
    assert_eq!(
        char_s,
        "s".to_string(),
        "This test should pass only on Qwerty layout !"
    );
    let n = keyboard.add(&EventType::KeyRelease(Key::KeyS));
    assert_eq!(n, None);

    // Shift + S
    keyboard.add(&EventType::KeyPress(Key::ShiftLeft));
    let char_s = keyboard.add(&EventType::KeyPress(Key::KeyS)).unwrap();
    assert_eq!(char_s, "S".to_string());
    let n = keyboard.add(&EventType::KeyRelease(Key::KeyS));
    assert_eq!(n, None);
    keyboard.add(&EventType::KeyRelease(Key::ShiftLeft));

    // Reset
    keyboard.add(&EventType::KeyPress(Key::ShiftLeft));
    keyboard.reset();
    let char_s = keyboard.add(&EventType::KeyPress(Key::KeyS)).unwrap();
    assert_eq!(char_s, "s".to_string());
    let n = keyboard.add(&EventType::KeyRelease(Key::KeyS));
    assert_eq!(n, None);
    keyboard.add(&EventType::KeyRelease(Key::ShiftLeft));
}

#[test]
fn caps_lock_toggles_letters() {
    let mut keyboard = Keyboard::new().unwrap();
    keyboard.add(&EventType::KeyPress(Key::CapsLock));
    assert_eq!(
        keyboard.add(&EventType::KeyPress(Key::KeyA)),
        Some("A".to_string())
    );
    // Caps lock leaves digits alone.
    assert_eq!(
        keyboard.add(&EventType::KeyPress(Key::Num1)),
        Some("1".to_string())
    );
    // Shift on top of caps lock gives lowercase letters again.
    keyboard.add(&EventType::KeyPress(Key::ShiftLeft));
    assert_eq!(
        keyboard.add(&EventType::KeyPress(Key::KeyA)),
        Some("a".to_string())
    );
    // ... but shifted digits.
    assert_eq!(
        keyboard.add(&EventType::KeyPress(Key::Num1)),
        Some("!".to_string())
    );
    // A second caps-lock press untoggles.
    keyboard.add(&EventType::KeyRelease(Key::ShiftLeft));
    keyboard.add(&EventType::KeyPress(Key::CapsLock));
    assert_eq!(
        keyboard.add(&EventType::KeyPress(Key::KeyA)),
        Some("a".to_string())
    );
}

#[test]
fn modifier_presses_resolve_nothing() {
    let mut keyboard = Keyboard::new().unwrap();
    assert_eq!(keyboard.add(&EventType::KeyPress(Key::ShiftLeft)), None);
    assert_eq!(keyboard.add(&EventType::KeyPress(Key::CapsLock)), None);
    assert_eq!(keyboard.add(&EventType::KeyRelease(Key::ShiftLeft)), None);
    assert_eq!(keyboard.add(&EventType::KeyPress(Key::Escape)), None);
    assert_eq!(keyboard.add(&EventType::ButtonPress(rdev::Button::Left)), None);
    assert_eq!(
        keyboard.add(&EventType::MouseMove { x: 4, y: 5 }),
        None
    );
}

#[test]
fn punctuation_resolves_shifted() {
    let mut keyboard = Keyboard::new().unwrap();
    assert_eq!(
        keyboard.add(&EventType::KeyPress(Key::SemiColon)),
        Some(";".to_string())
    );
    keyboard.add(&EventType::KeyPress(Key::ShiftRight));
    assert_eq!(
        keyboard.add(&EventType::KeyPress(Key::SemiColon)),
        Some(":".to_string())
    );
    assert_eq!(
        keyboard.add(&EventType::KeyPress(Key::Slash)),
        Some("?".to_string())
    );
}

#[test]
fn windows_resolver_latches_state_bytes() {
    let mut keyboard = WinKeyboard::new().unwrap();
    assert_eq!(
        keyboard.add(&EventType::KeyPress(Key::KeyS)),
        Some("s".to_string())
    );
    keyboard.add(&EventType::KeyPress(Key::ShiftLeft));
    assert_eq!(
        keyboard.add(&EventType::KeyPress(Key::KeyS)),
        Some("S".to_string())
    );
    keyboard.add(&EventType::KeyRelease(Key::ShiftLeft));
    keyboard.add(&EventType::KeyPress(Key::CapsLock));
    assert_eq!(
        keyboard.add(&EventType::KeyPress(Key::KeyS)),
        Some("S".to_string())
    );
    keyboard.reset();
    assert_eq!(
        keyboard.add(&EventType::KeyPress(Key::KeyS)),
        Some("s".to_string())
    );
    assert_eq!(keyboard.add(&EventType::KeyRelease(Key::KeyS)), None);
}

#[test]
fn macos_resolver_folds_caps_into_shift() {
    let mut keyboard = MacKeyboard::new().unwrap();
    assert_eq!(
        keyboard.add(&EventType::KeyPress(Key::KeyS)),
        Some("s".to_string())
    );
    keyboard.add(&EventType::KeyPress(Key::CapsLock));
    // The session folds caps lock into the shift level, as the OS resolver
    // does, so even digits shift.
    assert_eq!(
        keyboard.add(&EventType::KeyPress(Key::Num1)),
        Some("!".to_string())
    );
    keyboard.reset();
    assert_eq!(
        keyboard.add(&EventType::KeyPress(Key::Num1)),
        Some("1".to_string())
    );

    assert_eq!(flags_to_state(FLAG_SHIFT), 2);
    assert_eq!(flags_to_state(FLAG_CAPS_LOCK), 2);
    assert_eq!(flags_to_state(FLAG_SHIFT | FLAG_COMMAND), 3);
    assert_eq!(flags_to_state(0), 0);

    let mut keyboard = MacKeyboard::new().unwrap();
    assert_eq!(
        keyboard.string_from_code(1, 2),
        Some("S".to_string())
    );
    assert_eq!(keyboard.string_from_code(1, 0), Some("s".to_string()));
    assert_eq!(keyboard.string_from_code(0x10000, 0), None);
    rdev::macos::keyboard::set_is_main_thread(&mut keyboard, false);
    assert_eq!(keyboard.string_from_code(1, 0), Some("s".to_string()));
}

#[test]
fn wayland_resolver_masks_and_latches() {
    let indices = ModIndices {
        shift_idx: 0,
        caps_idx: 1,
        alt_idx: 3,
        ctrl_idx: 2,
        meta_idx: 6,
    };
    let mut keyboard = WaylandKeyboard::new(indices).unwrap();
    assert_eq!(keyboard.update_modifiers(), 0);
    assert_eq!(
        keyboard.add(&EventType::KeyPress(Key::KeyS)),
        Some("s".to_string())
    );
    keyboard.add(&EventType::KeyPress(Key::ShiftLeft));
    keyboard.add(&EventType::KeyPress(Key::Alt));
    assert_eq!(keyboard.update_modifiers(), 0b1001);
    assert_eq!(
        keyboard.add(&EventType::KeyPress(Key::KeyS)),
        Some("S".to_string())
    );
    // Alt and control latch but do not change the resolved character.
    assert_eq!(keyboard.add(&EventType::KeyRelease(Key::ShiftLeft)), None);
    keyboard.add(&EventType::KeyPress(Key::ControlLeft));
    assert_eq!(keyboard.update_modifiers(), 0b1100);
    assert_eq!(
        keyboard.add(&EventType::KeyPress(Key::KeyS)),
        Some("s".to_string())
    );
    keyboard.reset();
    assert_eq!(keyboard.update_modifiers(), 0);

    // An index beyond the mask cannot have come from a usable layout.
    let bad = ModIndices {
        shift_idx: 40,
        caps_idx: 1,
        alt_idx: 3,
        ctrl_idx: 2,
        meta_idx: 6,
    };
    assert!(WaylandKeyboard::new(bad).is_err());
}
