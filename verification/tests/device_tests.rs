use tablet_map::device::{is_event_node, names_device};
use tablet_map::stylus::Stylus;
use tablet_map::event::{InputEvent, EV_ABS, EV_KEY, BTN_LEFT, BTN_RIGHT};
use tablet_map::text::{contains, starts_with};

#[test]
fn event_nodes() {
    assert!(is_event_node("event3"));
    assert!(is_event_node("event"));
    assert!(!is_event_node("mouse0"));
    assert!(!is_event_node("even"));
    assert!(!is_event_node("by-id"));
}

#[test]
fn device_names_match_by_containment() {
    assert!(names_device("Wacom Intuos5 touch S Pad", "Wacom Intuos5"));
    assert!(names_device("Wacom Intuos5 touch S Pad", "Wacom Intuos5 touch S Pad"));
    assert!(names_device("Wacom Intuos5 touch S (WL) Pen", "Wacom Intuos5"));
    assert!(!names_device("Wacom Intuos5 touch S (WL) Pad", "Wacom Intuos5 touch S Pad"));
    assert!(!names_device("Wacom", "Wacom Intuos5"));
    assert!(names_device("anything", ""));
}

#[test]
fn text_searches() {
    assert!(starts_with("Gerät ü", "Ger"));
    assert!(!starts_with("Gerät", "ät"));
    assert!(contains("Gerät ü", "ät ü"));
    assert!(!contains("", "a"));
    assert!(contains("", ""));
    assert!(contains("abcabd", "abd"));
    assert!(!contains("abcabd", "abe"));
}

#[test]
fn stylus_buttons() {
    let s = Stylus::new();
    assert_eq!(s.key_map(&InputEvent::new(EV_KEY, 332, 1)), Some(InputEvent::new(EV_KEY, BTN_RIGHT, 1)));
    assert_eq!(s.key_map(&InputEvent::new(EV_KEY, 332, 0)), Some(InputEvent::new(EV_KEY, BTN_RIGHT, 0)));
    assert_eq!(s.key_map(&InputEvent::new(EV_KEY, 331, 1)), Some(InputEvent::new(EV_KEY, BTN_LEFT, 1)));
    assert_eq!(s.key_map(&InputEvent::new(EV_KEY, 331, 0)), Some(InputEvent::new(EV_KEY, BTN_LEFT, 0)));
    assert_eq!(s.key_map(&InputEvent::new(EV_KEY, 331, 2)), None);
    assert_eq!(s.key_map(&InputEvent::new(EV_KEY, 330, 1)), None);
    assert_eq!(s.key_map(&InputEvent::new(EV_ABS, 331, 1)), None);
    assert_eq!(s.dev_name(), "Wacom Intuos5 touch S Pen");
}
