use rdev::hook::HookSlot;
use rdev::linux::wayland::grab::InputEventRecord;
use rdev::stream::grab_drain;
use rdev::stream::listen_drain;
use rdev::stream::simulate_into;
use rdev::Event;
use rdev::EventType;
use rdev::Key;
use rdev::Keyboard;
use rdev::SimulateError;

fn fill(events: &[EventType]) -> Vec<InputEventRecord> {
    let mut queue: Vec<InputEventRecord> = Vec::new();
    for (i, e) in events.iter().enumerate() {
        simulate_into(&mut queue, e, i as i64, 0).expect("event should be encodable");
    }
    queue
}

#[test]
fn listen_reports_simulated_events_in_order() {
    let sent = [
        EventType::KeyPress(Key::ShiftLeft),
        EventType::KeyRelease(Key::ShiftLeft),
        EventType::KeyPress(Key::KeyS),
        EventType::KeyRelease(Key::KeyS),
        EventType::ButtonPress(rdev::Button::Right),
        EventType::ButtonRelease(rdev::Button::Right),
        EventType::Wheel {
            delta_x: 0,
            delta_y: 1,
        },
        EventType::Wheel {
            delta_x: 0,
            delta_y: -1,
        },
    ];
    let queue = fill(&sent);
    let mut keyboard = Keyboard::new().unwrap();
    let events = listen_drain(&queue, &mut keyboard, 7);
    assert_eq!(events.len(), sent.len());
    for (got, expected) in events.iter().zip(sent.iter()) {
        assert_eq!(got.event_type, *expected);
        assert_eq!(got.time, 7);
    }
}

#[test]
fn listen_resolves_names_along_the_stream() {
    let sent = [
        EventType::KeyPress(Key::KeyS),
        EventType::KeyPress(Key::ShiftLeft),
        EventType::KeyPress(Key::KeyS),
        EventType::KeyRelease(Key::KeyS),
        EventType::KeyRelease(Key::ShiftLeft),
        EventType::KeyPress(Key::KeyS),
    ];
    let queue = fill(&sent);
    let mut keyboard = Keyboard::new().unwrap();
    let events = listen_drain(&queue, &mut keyboard, 0);
    let names: Vec<Option<String>> = events.iter().map(|e| e.name.clone()).collect();
    assert_eq!(
        names,
        vec![
            Some("s".to_string()),
            None,
            Some("S".to_string()),
            None,
            None,
            Some("s".to_string()),
        ]
    );
}

#[test]
fn simulate_unmapped_key_fails_and_leaves_no_event() {
    let mut queue: Vec<InputEventRecord> = Vec::new();
    // An unknown code beyond the kernel's 16-bit space has no mapping.
    let unmapped = EventType::KeyPress(Key::Unknown(0x10000));
    let first = simulate_into(&mut queue, &unmapped, 0, 0);
    let second = simulate_into(&mut queue, &unmapped, 0, 0);
    assert_eq!(first, Err(SimulateError));
    assert_eq!(second, Err(SimulateError));
    assert_eq!(first, second);
    assert!(queue.is_empty());
    let mut keyboard = Keyboard::new().unwrap();
    assert!(listen_drain(&queue, &mut keyboard, 0).is_empty());

    // A failed injection corrupts nothing: the next mappable event passes.
    simulate_into(&mut queue, &EventType::KeyPress(Key::KeyQ), 0, 0).unwrap();
    let events = listen_drain(&queue, &mut keyboard, 0);
    assert_eq!(events.len(), 1);
    assert_eq!(events[0].event_type, EventType::KeyPress(Key::KeyQ));
}

#[test]
fn grab_suppresses_tab_and_passes_the_rest() {
    let sent = [
        EventType::KeyPress(Key::KeyS),
        EventType::KeyPress(Key::Tab),
        EventType::KeyRelease(Key::Tab),
        EventType::KeyRelease(Key::KeyS),
        EventType::KeyPress(Key::Tab),
    ];
    let queue = fill(&sent);
    let grab_tab = |event: Event| -> Option<Event> {
        match event.event_type {
            EventType::KeyPress(Key::Tab) => None,
            _ => Some(event),
        }
    };
    let passed = grab_drain(&queue, &grab_tab, 0);
    let mut keyboard = Keyboard::new().unwrap();
    let observed = listen_drain(&passed, &mut keyboard, 0);
    let kinds: Vec<EventType> = observed.iter().map(|e| e.event_type).collect();
    assert_eq!(
        kinds,
        vec![
            EventType::KeyPress(Key::KeyS),
            EventType::KeyRelease(Key::Tab),
            EventType::KeyRelease(Key::KeyS),
        ]
    );
    for e in observed.iter() {
        assert!(
            e.event_type != EventType::KeyPress(Key::Tab),
            "We should not receive event : {:?}",
            e
        );
    }
}

#[test]
fn grab_passes_everything_untouched() {
    let sent = [
        EventType::KeyPress(Key::KeyW),
        EventType::MouseMove { x: 10, y: 0 },
        EventType::Wheel {
            delta_x: -2,
            delta_y: 0,
        },
    ];
    let queue = fill(&sent);
    let pass = |event: Event| -> Option<Event> { Some(event) };
    let passed = grab_drain(&queue, &pass, 0);
    assert_eq!(passed, queue);
}

#[test]
fn grab_substitutes_replacement_events() {
    let queue = fill(&[EventType::KeyPress(Key::KeyA)]);
    let swap = |event: Event| -> Option<Event> {
        if event.event_type == EventType::KeyPress(Key::KeyA) {
            Some(Event {
                event_type: EventType::KeyPress(Key::KeyB),
                ..event
            })
        } else {
            Some(event)
        }
    };
    let passed = grab_drain(&queue, &swap, 0);
    let mut keyboard = Keyboard::new().unwrap();
    let observed = listen_drain(&passed, &mut keyboard, 0);
    assert_eq!(observed.len(), 1);
    assert_eq!(observed[0].event_type, EventType::KeyPress(Key::KeyB));
}

#[test]
fn simulate_then_listen_round_trip() {
    let mut queue: Vec<InputEventRecord> = Vec::new();
    simulate_into(&mut queue, &EventType::KeyPress(Key::KeyS), 0, 0).unwrap();
    simulate_into(&mut queue, &EventType::KeyRelease(Key::KeyS), 0, 1).unwrap();
    let mut keyboard = Keyboard::new().unwrap();
    let observed = listen_drain(&queue, &mut keyboard, 0);
    assert_eq!(observed.len(), 2);
    assert_eq!(observed[0].event_type, EventType::KeyPress(Key::KeyS));
    assert_eq!(observed[1].event_type, EventType::KeyRelease(Key::KeyS));
}

#[test]
fn wheel_sign_is_observed() {
    let mut queue: Vec<InputEventRecord> = Vec::new();
    simulate_into(
        &mut queue,
        &EventType::Wheel {
            delta_x: 0,
            delta_y: 1,
        },
        0,
        0,
    )
    .unwrap();
    let mut keyboard = Keyboard::new().unwrap();
    let observed = listen_drain(&queue, &mut keyboard, 0);
    assert_eq!(observed.len(), 1);
    match observed[0].event_type {
        EventType::Wheel { delta_x, delta_y } => {
            assert_eq!(delta_x, 0);
            assert!(delta_y > 0);
        }
        other => panic!("expected a wheel event, got {:?}", other),
    }

    let mut queue: Vec<InputEventRecord> = Vec::new();
    simulate_into(
        &mut queue,
        &EventType::Wheel {
            delta_x: 0,
            delta_y: -3,
        },
        0,
        0,
    )
    .unwrap();
    let observed = listen_drain(&queue, &mut keyboard, 0);
    match observed[0].event_type {
        EventType::Wheel { delta_y, .. } => assert!(delta_y < 0),
        other => panic!("expected a wheel event, got {:?}", other),
    }
}

#[test]
fn hook_slot_admits_one_registration() {
    let mut slot = HookSlot::new();
    assert!(slot.begin_install());
    // A second claim is refused while the first is pending or running.
    assert!(!slot.begin_install());
    slot.finish_install(true);
    assert!(slot.is_running());
    assert!(!slot.begin_install());
    slot.begin_uninstall();
    assert!(!slot.is_running());
    slot.finish_uninstall();
    assert!(slot.begin_install());
    // A rejected installation fails without ever running.
    slot.finish_install(false);
    assert!(!slot.is_running());
    assert!(!slot.begin_install());
    slot.finish_uninstall();
    assert!(slot.begin_install());
}
