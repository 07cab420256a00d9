use rdev::display_size;
use rdev::linux::wayland::common::Display;
use rdev::DisplayError;

#[test]
fn display_size_reads_the_first_output() {
    let reply = r#"[{"rect":{"x":0,"y":0,"width":1920,"height":1080}}]"#.as_bytes();
    assert_eq!(display_size(reply).unwrap(), (1920, 1080));
}

#[test]
fn display_size_skips_spaces_after_the_keys() {
    let reply = r#"[
  {
    "rect": {
      "width": 2560,
      "height": 1440
    }
  }
]"#
    .as_bytes();
    assert_eq!(display_size(reply).unwrap(), (2560, 1440));
}

#[test]
fn display_size_fails_without_both_fields() {
    let reply = r#"[{"rect":{"width":1920}}]"#.as_bytes();
    assert!(matches!(display_size(reply), Err(DisplayError::NoDisplay)));
    let reply = r#"[]"#.as_bytes();
    assert!(matches!(display_size(reply), Err(DisplayError::NoDisplay)));
    let reply = r#"[{"rect":{"width":abc,"height":2}}]"#.as_bytes();
    assert!(matches!(display_size(reply), Err(DisplayError::NoDisplay)));
}

#[test]
fn display_handle_reports_origin_pointer() {
    let display = Display::new().unwrap();
    assert_eq!(display.get_mouse_pos(), Some((0, 0)));
    let reply = r#"{"width":640,"height":480}"#.as_bytes();
    assert_eq!(display.get_size(reply), Some((640, 480)));
    assert_eq!(display.get_size(b"nothing here"), None);
}
