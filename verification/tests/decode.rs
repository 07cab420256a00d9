use rdev::linux::common as x11_common;
use rdev::linux::common::convert_event;
use rdev::linux::common::datum_from_bytes;
use rdev::linux::common::record_event;
use rdev::linux::common::XRecordDatum;
use rdev::linux::wayland::grab::evdev_event_to_rdev_event;
use rdev::linux::wayland::grab::rdev_event_to_evdev_event;
use rdev::linux::wayland::grab::InputEventRecord;
use rdev::macos::common as macos_common;
use rdev::macos::common::sys_defined;
use rdev::macos::common::RawCgEvent;
use rdev::macos::keyboard::Keyboard as MacKeyboard;
use rdev::macos::keyboard::FLAG_SHIFT;
use rdev::windows::common as windows_common;
use rdev::windows::common::get_code;
use rdev::windows::common::get_delta;
use rdev::windows::common::get_point;
use rdev::windows::common::get_scan_code;
use rdev::windows::common::raw_event;
use rdev::windows::keyboard::Keyboard as WinKeyboard;
use rdev::Button;
use rdev::EventType;
use rdev::Key;
use rdev::Keyboard;

#[test]
fn x11_convert_event_decodes_keys_buttons_and_wheel() {
    assert_eq!(
        convert_event(39, 2, 0, 0),
        Some(EventType::KeyPress(Key::KeyS))
    );
    assert_eq!(
        convert_event(39, 3, 0, 0),
        Some(EventType::KeyRelease(Key::KeyS))
    );
    assert_eq!(
        convert_event(1, 4, 0, 0),
        Some(EventType::ButtonPress(Button::Left))
    );
    assert_eq!(
        convert_event(4, 4, 0, 0),
        Some(EventType::Wheel { delta_x: 0, delta_y: 1 })
    );
    assert_eq!(
        convert_event(5, 4, 0, 0),
        Some(EventType::Wheel { delta_x: 0, delta_y: -1 })
    );
    // Releases of the wheel buttons are dropped.
    assert_eq!(convert_event(4, 5, 0, 0), None);
    assert_eq!(
        convert_event(9, 5, 0, 0),
        Some(EventType::ButtonRelease(Button::Unknown(9)))
    );
    assert_eq!(
        convert_event(0, 6, 12, 34),
        Some(EventType::MouseMove { x: 12, y: 34 })
    );
    // Unrecognized protocol events are dropped, never an error.
    assert_eq!(convert_event(0, 33, 0, 0), None);
}

#[test]
fn x11_record_datum_reads_the_raw_buffer() {
    let mut data = vec![0u8; 32];
    data[0] = 2; // key press
    data[1] = 39; // the keycode of the s key
    data[20] = 0x34; // root x, little endian
    data[21] = 0x12;
    data[22] = 0x78; // root y
    data[23] = 0x56;
    data[28] = 1; // shift held
    let datum = datum_from_bytes(&data).unwrap();
    assert_eq!(
        datum,
        XRecordDatum {
            type_: 2,
            code: 39,
            root_x: 0x1234,
            root_y: 0x5678,
            state: 1,
        }
    );
    // A buffer too short for the datum is malformed and decodes to nothing.
    assert_eq!(datum_from_bytes(&data[..29]), None);

    let keyboard = Keyboard::new().unwrap();
    let event = record_event(&keyboard, &data, 5).unwrap();
    assert_eq!(event.event_type, EventType::KeyPress(Key::KeyS));
    assert_eq!(event.time, 5);
    assert_eq!(event.name, Some("S".to_string()));
}

#[test]
fn x11_convert_resolves_names_under_the_mask() {
    let keyboard = Keyboard::new().unwrap();
    let event = x11_common::convert(&keyboard, 39, 0, 2, 0, 0, 1).unwrap();
    assert_eq!(event.name, Some("s".to_string()));
    let event = x11_common::convert(&keyboard, 39, 1, 2, 0, 0, 1).unwrap();
    assert_eq!(event.name, Some("S".to_string()));
    let event = x11_common::convert(&keyboard, 39, 2, 2, 0, 0, 1).unwrap();
    assert_eq!(event.name, Some("S".to_string()));
    let event = x11_common::convert(&keyboard, 39, 3, 2, 0, 0, 1).unwrap();
    assert_eq!(event.name, Some("s".to_string()));
    let event = x11_common::convert(&keyboard, 39, 0, 3, 0, 0, 1).unwrap();
    assert_eq!(event.name, None);
}

#[test]
fn windows_payload_reads() {
    let mut kbd = vec![0u8; 20];
    kbd[0] = 83;
    kbd[4] = 0x1f;
    assert_eq!(get_code(&kbd), Some(83));
    assert_eq!(get_scan_code(&kbd), Some(0x1f));
    assert_eq!(get_code(&kbd[..3]), None);

    let mut mouse = vec![0u8; 24];
    mouse[0] = 0x0a; // x = 10
    mouse[4] = 0xf6; // y = -10
    mouse[5] = 0xff;
    mouse[6] = 0xff;
    mouse[7] = 0xff;
    mouse[10] = 0x78; // mouseData high word = 120
    assert_eq!(get_point(&mouse), Some((10, -10)));
    assert_eq!(get_delta(&mouse), Some(120));
}

#[test]
fn windows_convert_decodes_messages() {
    let mut kbd = vec![0u8; 20];
    kbd[0] = 83;
    assert_eq!(
        windows_common::convert(0x100, &kbd),
        Some(EventType::KeyPress(Key::KeyS))
    );
    assert_eq!(
        windows_common::convert(0x105, &kbd),
        Some(EventType::KeyRelease(Key::KeyS))
    );
    let mouse = vec![0u8; 24];
    assert_eq!(
        windows_common::convert(0x201, &mouse),
        Some(EventType::ButtonPress(Button::Left))
    );
    assert_eq!(
        windows_common::convert(0x200, &mouse),
        Some(EventType::MouseMove { x: 0, y: 0 })
    );
    let mut wheel = vec![0u8; 24];
    wheel[10] = 0x78; // +120: one step up
    assert_eq!(
        windows_common::convert(0x20A, &wheel),
        Some(EventType::Wheel { delta_x: 0, delta_y: 1 })
    );
    wheel[10] = 0x88; // -120: one step down
    wheel[11] = 0xff;
    assert_eq!(
        windows_common::convert(0x20A, &wheel),
        Some(EventType::Wheel { delta_x: 0, delta_y: -1 })
    );
    assert_eq!(windows_common::convert(0x999, &mouse), None);
}

#[test]
fn windows_raw_event_resolves_names() {
    let keyboard = WinKeyboard::new().unwrap();
    let mut kbd = vec![0u8; 20];
    kbd[0] = 83;
    let event = raw_event(&keyboard, 0x100, &kbd, 9).unwrap();
    assert_eq!(event.event_type, EventType::KeyPress(Key::KeyS));
    assert_eq!(event.name, Some("s".to_string()));
    assert_eq!(event.time, 9);
    let event = raw_event(&keyboard, 0x101, &kbd, 9).unwrap();
    assert_eq!(event.name, None);
}

#[test]
fn macos_convert_decodes_taps_and_flag_changes() {
    let keyboard = MacKeyboard::new().unwrap();
    let mut last_flags: u64 = 0;
    let raw = RawCgEvent {
        etype: 10,
        keycode: 1,
        flags: 0,
        x: 0,
        y: 0,
        wheel_dy: 0,
        wheel_dx: 0,
        subtype: 0,
        data1: 0,
    };
    let event = macos_common::convert(&raw, &mut last_flags, &keyboard, 3).unwrap();
    assert_eq!(event.event_type, EventType::KeyPress(Key::KeyS));
    assert_eq!(event.name, Some("s".to_string()));

    // A shift bit appearing in the flags is a press of the flagged key.
    let raw = RawCgEvent {
        etype: 12,
        keycode: 56,
        flags: FLAG_SHIFT,
        ..raw
    };
    let event = macos_common::convert(&raw, &mut last_flags, &keyboard, 3).unwrap();
    assert_eq!(event.event_type, EventType::KeyPress(Key::ShiftLeft));
    assert_eq!(last_flags, FLAG_SHIFT);

    // The same flags again decode to nothing.
    assert!(macos_common::convert(&raw, &mut last_flags, &keyboard, 3).is_none());

    // The bit vanishing is a release.
    let raw = RawCgEvent {
        etype: 12,
        keycode: 56,
        flags: 0,
        ..raw
    };
    let event = macos_common::convert(&raw, &mut last_flags, &keyboard, 3).unwrap();
    assert_eq!(event.event_type, EventType::KeyRelease(Key::ShiftLeft));
    assert_eq!(last_flags, 0);

    let raw = RawCgEvent {
        etype: 22,
        wheel_dy: -2,
        wheel_dx: 1,
        ..raw
    };
    let event = macos_common::convert(&raw, &mut last_flags, &keyboard, 3).unwrap();
    assert_eq!(
        event.event_type,
        EventType::Wheel { delta_x: 1, delta_y: -2 }
    );
}

#[test]
fn macos_sys_defined_decodes_special_keys() {
    // Caps lock (key number four), pressed: transition nibble 0xa in bits
    // eight to sixteen, key number in the high word.
    let data1: i64 = (4 << 16) | (0xa << 8);
    assert_eq!(
        sys_defined(8, data1),
        Some(EventType::KeyPress(Key::CapsLock))
    );
    let data1: i64 = (4 << 16) | (0xb << 8);
    assert_eq!(
        sys_defined(8, data1),
        Some(EventType::KeyRelease(Key::CapsLock))
    );
    // Subtypes other than the keyboard one carry no key.
    assert_eq!(sys_defined(7, data1), None);
    // Special keys without a canonical identity are dropped.
    let data1: i64 = (0 << 16) | (0xa << 8);
    assert_eq!(sys_defined(8, data1), None);
}

#[test]
fn evdev_records_decode_and_encode() {
    let rec = InputEventRecord {
        time_sec: 0,
        time_usec: 0,
        kind: 1,
        code: 272,
        value: 1,
    };
    assert_eq!(
        evdev_event_to_rdev_event(&rec),
        Some(EventType::ButtonPress(Button::Left))
    );
    let rec = InputEventRecord {
        kind: 2,
        code: 8,
        value: -4,
        ..rec
    };
    assert_eq!(
        evdev_event_to_rdev_event(&rec),
        Some(EventType::Wheel { delta_x: 0, delta_y: -4 })
    );
    // Synchronization markers decode to nothing.
    let rec = InputEventRecord {
        kind: 0,
        code: 0,
        value: 0,
        ..rec
    };
    assert_eq!(evdev_event_to_rdev_event(&rec), None);

    let rec = rdev_event_to_evdev_event(&EventType::KeyPress(Key::KeyQ), 1, 2).unwrap();
    assert_eq!(rec.kind, 1);
    assert_eq!(rec.code, 16);
    assert_eq!(rec.value, 1);
    assert_eq!(
        evdev_event_to_rdev_event(&rec),
        Some(EventType::KeyPress(Key::KeyQ))
    );
    assert_eq!(
        rdev_event_to_evdev_event(&EventType::ButtonPress(Button::Unknown(7)), 1, 2),
        None
    );
}
