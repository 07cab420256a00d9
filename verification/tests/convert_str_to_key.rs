use rdev::Key;

#[test]
fn convert_to_key() {
    let key0 = "Kp0";
    let dot = "Dot";
    let kpmultiply = "KpMultiply";
    let no_key = "abraca";
    assert_eq!(Key::from_str(key0).unwrap(), Key::Kp0);
    assert_eq!(Key::from_str(dot).unwrap(), Key::Dot);
    assert_eq!(Key::from_str(kpmultiply).unwrap(), Key::KpMultiply);
    assert_eq!(Key::from_str(no_key), None);
}

#[test]
fn convert_is_case_insensitive() {
    assert_eq!(Key::from_str("ALT"), Some(Key::Alt));
    assert_eq!(Key::from_str("sHiFtLeFt"), Some(Key::ShiftLeft));
    assert_eq!(Key::from_str("s"), Some(Key::KeyS));
    assert_eq!(Key::from_str("F11"), Some(Key::F11));
}

#[test]
fn convert_unnamed_keys() {
    // The lock keys have no matchable name in the table.
    assert_eq!(Key::from_str("ScrollLock"), None);
    assert_eq!(Key::from_str("NumLock"), None);
    assert_eq!(Key::from_str(""), None);
}
