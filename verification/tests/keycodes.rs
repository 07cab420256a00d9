use rdev::linux::keycodes as x11_keycodes;
use rdev::linux::wayland::keycodes as evdev_keycodes;
use rdev::linux::wayland::xkb_keycodes::internal_to_xkb_keycode;
use rdev::macos::keycodes as macos_keycodes;
use rdev::macos::keycodes::key_from_special_key;
use rdev::windows::keycodes as windows_keycodes;
use rdev::Key;

#[test]
fn test_reversible() {
    for code in 0..65636u32 {
        let key = x11_keycodes::key_from_code(code);
        match x11_keycodes::code_from_key(key) {
            Some(code2) => assert_eq!(code, code2),
            None => panic!("Could not convert back code: {:?}", code),
        }
    }
}

#[test]
fn keycodes_test_reversible() {
    for code in 0..65636u32 {
        let key = evdev_keycodes::key_from_code(code);
        match evdev_keycodes::code_from_key(key) {
            Some(code2) => assert_eq!(code, code2),
            None => panic!("Could not convert back code: {:?}", code),
        }
    }
}

#[test]
fn windows_test_reversible() {
    for code in 0..65535u16 {
        let key = windows_keycodes::key_from_code(code);
        if let Some(code2) = windows_keycodes::code_from_key(key) {
            assert_eq!(code, code2)
        } else {
            panic!("We could not convert back code: {:?}", code);
        }
    }
}

#[test]
fn macos_test_reversible() {
    for code in 0..=65535u16 {
        let key = macos_keycodes::key_from_code(code);
        match macos_keycodes::code_from_key(key) {
            Some(code2) => assert_eq!(code, code2),
            None => panic!("Could not convert back code: {:?}", code),
        }
    }
}

#[test]
fn table_spot_checks() {
    assert_eq!(rdev::linux::keycodes::key_from_code(39), Key::KeyS);
    assert_eq!(rdev::linux::keycodes::code_from_key(Key::KeyS), Some(39));
    assert_eq!(rdev::linux::keycodes::code_from_key(Key::MetaRight), None);
    assert_eq!(
        rdev::linux::keycodes::key_from_code(4242),
        Key::Unknown(4242)
    );

    assert_eq!(rdev::linux::wayland::keycodes::key_from_code(31), Key::KeyS);
    assert_eq!(
        rdev::linux::wayland::keycodes::code_from_key(Key::KpDelete),
        Some(83)
    );

    assert_eq!(rdev::windows::keycodes::key_from_code(83), Key::KeyS);
    assert_eq!(rdev::windows::keycodes::code_from_key(Key::Function), None);
    assert_eq!(
        rdev::windows::keycodes::code_from_key(Key::Unknown(70000)),
        None
    );
    assert_eq!(
        rdev::windows::keycodes::code_from_key(Key::Unknown(500)),
        Some(500)
    );

    assert_eq!(rdev::macos::keycodes::key_from_code(1), Key::KeyS);
    assert_eq!(rdev::macos::keycodes::code_from_key(Key::Insert), None);
    // The right control key maps out but never back: its code reads as an
    // unknown code, which still round-trips.
    assert_eq!(
        rdev::macos::keycodes::code_from_key(Key::ControlRight),
        Some(62)
    );
    assert_eq!(rdev::macos::keycodes::key_from_code(62), Key::Unknown(62));
}

#[test]
fn special_keys() {
    assert_eq!(key_from_special_key(4), Some(Key::CapsLock));
    assert_eq!(key_from_special_key(8), Some(Key::UpArrow));
    assert_eq!(key_from_special_key(9), Some(Key::DownArrow));
    assert_eq!(key_from_special_key(10), Some(Key::NumLock));
    assert_eq!(key_from_special_key(0), None);
    assert_eq!(key_from_special_key(16), None);
}

#[test]
fn xkb_offset() {
    assert_eq!(internal_to_xkb_keycode(31), 39);
    assert_eq!(internal_to_xkb_keycode(0), 8);
}
