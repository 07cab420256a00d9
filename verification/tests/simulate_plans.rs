use rdev::linux::simulate as x11_simulate;
use rdev::linux::simulate::FakeInput;
use rdev::linux::wayland::simulate as uinput_simulate;
use rdev::linux::wayland::simulate::Handle;
use rdev::macos::keyboard::FLAG_SHIFT;
use rdev::macos::simulate as macos_simulate;
use rdev::macos::simulate::is_modifier_key;
use rdev::macos::simulate::CgEventPlan;
use rdev::windows::simulate as windows_simulate;
use rdev::windows::simulate::normalize;
use rdev::windows::simulate::WinInput;
use rdev::Button;
use rdev::EventType;
use rdev::Key;
use rdev::SimulateError;

#[test]
fn x11_plans_key_and_button_events() {
    let plan = x11_simulate::simulate(&EventType::KeyPress(Key::KeyS)).unwrap();
    assert_eq!(plan, vec![FakeInput::KeyEvent { code: 39, press: true }]);
    let plan = x11_simulate::simulate(&EventType::ButtonPress(Button::Middle)).unwrap();
    assert_eq!(plan, vec![FakeInput::ButtonEvent { button: 2, press: true }]);
    let plan = x11_simulate::simulate(&EventType::MouseMove { x: 40, y: 50 }).unwrap();
    assert_eq!(plan, vec![FakeInput::MotionEvent { x: 40, y: 50 }]);
}

#[test]
fn x11_unrolls_wheel_steps() {
    let plan = x11_simulate::simulate(&EventType::Wheel {
        delta_x: 0,
        delta_y: 2,
    })
    .unwrap();
    assert_eq!(
        plan,
        vec![
            FakeInput::ButtonEvent { button: 4, press: true },
            FakeInput::ButtonEvent { button: 4, press: false },
            FakeInput::ButtonEvent { button: 4, press: true },
            FakeInput::ButtonEvent { button: 4, press: false },
        ]
    );
    let plan = x11_simulate::simulate(&EventType::Wheel {
        delta_x: -1,
        delta_y: -1,
    })
    .unwrap();
    assert_eq!(
        plan,
        vec![
            FakeInput::ButtonEvent { button: 6, press: true },
            FakeInput::ButtonEvent { button: 6, press: false },
            FakeInput::ButtonEvent { button: 5, press: true },
            FakeInput::ButtonEvent { button: 5, press: false },
        ]
    );
}

#[test]
fn x11_unmapped_key_fails_with_the_same_error() {
    // The right meta key has no keycode in the X table.
    let first = x11_simulate::simulate(&EventType::KeyPress(Key::MetaRight));
    let second = x11_simulate::simulate(&EventType::KeyPress(Key::MetaRight));
    assert_eq!(first, Err(SimulateError));
    assert_eq!(second, Err(SimulateError));
}

#[test]
fn windows_plans_keyboard_and_wheel_records() {
    let plan = windows_simulate::simulate(&EventType::KeyPress(Key::KeyS), 1920, 1080).unwrap();
    assert_eq!(plan, vec![WinInput::Keyboard { flags: 0, vk: 83, scan: 0 }]);
    let plan = windows_simulate::simulate(&EventType::KeyRelease(Key::KeyS), 1920, 1080).unwrap();
    assert_eq!(plan, vec![WinInput::Keyboard { flags: 2, vk: 83, scan: 0 }]);

    let plan = windows_simulate::simulate(
        &EventType::Wheel {
            delta_x: 0,
            delta_y: 1,
        },
        1920,
        1080,
    )
    .unwrap();
    assert_eq!(
        plan,
        vec![WinInput::Mouse { flags: 0x800, data: 120, dx: 0, dy: 0 }]
    );
    let plan = windows_simulate::simulate(
        &EventType::Wheel {
            delta_x: 0,
            delta_y: -1,
        },
        1920,
        1080,
    )
    .unwrap();
    assert_eq!(
        plan,
        vec![WinInput::Mouse { flags: 0x800, data: (-120i32) as u32, dx: 0, dy: 0 }]
    );
    // A delta beyond the 16-bit field is refused.
    let refused = windows_simulate::simulate(
        &EventType::Wheel {
            delta_x: 0,
            delta_y: 40000,
        },
        1920,
        1080,
    );
    assert_eq!(refused, Err(SimulateError));
}

#[test]
fn windows_normalizes_absolute_motion() {
    assert_eq!(normalize(959, 1920), 32767);
    assert_eq!(normalize(1919, 1920), 65535);
    assert_eq!(normalize(0, 1920), 34);
    let plan = windows_simulate::simulate(&EventType::MouseMove { x: 959, y: 539 }, 1920, 1080).unwrap();
    assert_eq!(
        plan,
        vec![WinInput::Mouse { flags: 0x1 | 0x8000 | 0x4000, data: 0, dx: 32767, dy: 32767 }]
    );
    let refused = windows_simulate::simulate(&EventType::MouseMove { x: 1, y: 1 }, 0, 1080);
    assert_eq!(refused, Err(SimulateError));
}

#[test]
fn windows_unmapped_key_fails_with_the_same_error() {
    // The function key has no virtual-key code.
    let first = windows_simulate::simulate(&EventType::KeyPress(Key::Function), 1920, 1080);
    let second = windows_simulate::simulate(&EventType::KeyPress(Key::Function), 1920, 1080);
    assert_eq!(first, Err(SimulateError));
    assert_eq!(second, Err(SimulateError));
}

#[test]
fn macos_plans_key_events_and_tracks_flags() {
    let mut flags: u64 = 0;
    let plan = macos_simulate::simulate(&EventType::KeyPress(Key::ShiftLeft), &mut flags, 3, 4).unwrap();
    assert_eq!(plan, CgEventPlan::FlagsChangedEvent { code: 56, flags: FLAG_SHIFT });
    assert_eq!(flags, FLAG_SHIFT);
    let plan = macos_simulate::simulate(&EventType::KeyPress(Key::KeyS), &mut flags, 3, 4).unwrap();
    assert_eq!(
        plan,
        CgEventPlan::KeyboardEvent { code: 1, press: true, flags: FLAG_SHIFT }
    );
    let plan = macos_simulate::simulate(&EventType::KeyRelease(Key::ShiftLeft), &mut flags, 3, 4).unwrap();
    assert_eq!(plan, CgEventPlan::FlagsChangedEvent { code: 56, flags: 0 });
    assert_eq!(flags, 0);
}

#[test]
fn macos_buttons_and_failures() {
    let mut flags: u64 = 0;
    let plan = macos_simulate::simulate(&EventType::ButtonPress(Button::Left), &mut flags, 11, 12).unwrap();
    assert_eq!(plan, CgEventPlan::MouseEvent { etype: 1, x: 11, y: 12 });
    // Buttons beyond left and right have no posting primitive.
    let refused = macos_simulate::simulate(&EventType::ButtonPress(Button::Middle), &mut flags, 11, 12);
    assert_eq!(refused, Err(SimulateError));
    let refused = macos_simulate::simulate(&EventType::KeyPress(Key::Insert), &mut flags, 11, 12);
    assert_eq!(refused, Err(SimulateError));
    assert_eq!(flags, 0);

    assert!(is_modifier_key(Key::AltGr));
    assert!(!is_modifier_key(Key::KeyS));
}

#[test]
fn uinput_plans_record_pairs() {
    let records = uinput_simulate::simulate(&EventType::KeyPress(Key::KeyS), 9, 10).unwrap();
    assert_eq!(records.len(), 2);
    assert_eq!(records[0].kind, 1);
    assert_eq!(records[0].code, 31);
    assert_eq!(records[0].value, 1);
    assert_eq!(records[0].time_sec, 9);
    assert_eq!(records[1].kind, 0);

    let handle = Handle::new();
    let records = handle
        .send(
            &EventType::Wheel {
                delta_x: 0,
                delta_y: 1,
            },
            0,
            0,
        )
        .unwrap();
    assert_eq!(records.len(), 3);
    assert_eq!(records[0].code, 0x0c);
    assert_eq!(records[0].value, 0);
    assert_eq!(records[1].code, 0x0b);
    assert_eq!(records[1].value, 120);

    let refused = handle.send(&EventType::ButtonPress(Button::Unknown(9)), 0, 0);
    assert_eq!(refused, Err(SimulateError));
}
