use tablet_map::event::{InputEvent, EV_ABS, EV_KEY, EV_SYN};
use tablet_map::pad::{pad_scroll_amount, Pad, PadClick, PadKeyAction, PadScrollAction};

fn key(code: u16, value: i32) -> InputEvent {
    InputEvent::new(EV_KEY, code, value)
}

fn ring(value: i32) -> InputEvent {
    InputEvent::new(EV_ABS, 0x28, value)
}

#[test]
fn pad_keys_map_to_clicks() {
    let pad = Pad::new();
    assert_eq!(pad.key_map(&key(257, 1)), PadKeyAction::Click(PadClick::Left));
    assert_eq!(pad.key_map(&key(260, 1)), PadKeyAction::Click(PadClick::Left));
    assert_eq!(pad.key_map(&key(258, 1)), PadKeyAction::Click(PadClick::Middle));
    assert_eq!(pad.key_map(&key(261, 1)), PadKeyAction::Click(PadClick::Middle));
    assert_eq!(pad.key_map(&key(259, 1)), PadKeyAction::Click(PadClick::Right));
    assert_eq!(pad.key_map(&key(262, 1)), PadKeyAction::Click(PadClick::Right));
}

#[test]
fn pad_unmapped_press_only_pauses() {
    let pad = Pad::new();
    assert_eq!(pad.key_map(&key(256, 1)), PadKeyAction::Pause);
    assert_eq!(pad.key_map(&key(263, 1)), PadKeyAction::Pause);
}

#[test]
fn pad_releases_and_other_events_are_ignored() {
    let pad = Pad::new();
    assert_eq!(pad.key_map(&key(257, 0)), PadKeyAction::Ignore);
    assert_eq!(pad.key_map(&key(257, 2)), PadKeyAction::Ignore);
    assert_eq!(pad.key_map(&InputEvent::new(EV_ABS, 257, 1)), PadKeyAction::Ignore);
}

#[test]
fn pad_click_arguments() {
    assert_eq!(PadClick::Left.arg(), "0xC0");
    assert_eq!(PadClick::Middle.arg(), "0xC2");
    assert_eq!(PadClick::Right.arg(), "0xC1");
}

#[test]
fn pad_device_names() {
    let pad = Pad::new();
    assert_eq!(pad.dev_name(), "Wacom Intuos5 touch S Pad");
    assert_eq!(pad.dev_wl_name(), "Wacom Intuos5 touch S (WL) Pad");
}

#[test]
fn pad_first_touch_anchors() {
    let mut pad = Pad::new();
    assert_eq!(pad.last_position_value(), None);
    assert_eq!(pad.scroll_map(&ring(10)), PadScrollAction::Anchor);
    assert_eq!(pad.last_position_value(), Some(10));
}

#[test]
fn pad_clockwise_scrolls_down() {
    let mut pad = Pad::new();
    pad.scroll_map(&ring(10));
    assert_eq!(pad.scroll_map(&ring(12)), PadScrollAction::Step(-2));
    assert_eq!(pad.last_position_value(), Some(12));
    assert_eq!(pad.scroll_map(&ring(11)), PadScrollAction::Step(1));
}

#[test]
fn pad_unit_steps() {
    let mut pad = Pad::new();
    pad.scroll_map(&ring(40));
    assert_eq!(pad.scroll_map(&ring(41)), PadScrollAction::Step(-1));
    assert_eq!(pad.scroll_map(&ring(40)), PadScrollAction::Step(1));
}

#[test]
fn pad_wraps_round_the_ring() {
    let mut pad = Pad::new();
    pad.scroll_map(&ring(71));
    assert_eq!(pad.scroll_map(&ring(1)), PadScrollAction::Step(-2));
    assert_eq!(pad.scroll_map(&ring(70)), PadScrollAction::Step(3));
}

#[test]
fn pad_step_is_periodic_in_the_ring_size() {
    let mut a = Pad::new();
    let mut b = Pad::new();
    a.scroll_map(&ring(10));
    b.scroll_map(&ring(10));
    assert_eq!(a.scroll_map(&ring(15)), b.scroll_map(&ring(15 + 72)));
    assert_eq!(a.scroll_map(&ring(15)), PadScrollAction::Anchor);
}

#[test]
fn pad_jump_reanchors() {
    let mut pad = Pad::new();
    pad.scroll_map(&ring(5));
    assert_eq!(pad.scroll_map(&ring(30)), PadScrollAction::Anchor);
    assert_eq!(pad.last_position_value(), Some(30));
    assert_eq!(pad.scroll_map(&ring(44)), PadScrollAction::Step(-14));
    assert_eq!(pad.scroll_map(&ring(29)), PadScrollAction::Anchor);
}

#[test]
fn pad_half_ring_is_a_jump() {
    let mut pad = Pad::new();
    pad.scroll_map(&ring(1));
    assert_eq!(pad.scroll_map(&ring(37)), PadScrollAction::Anchor);
}

#[test]
fn pad_no_motion_reanchors() {
    let mut pad = Pad::new();
    pad.scroll_map(&ring(20));
    assert_eq!(pad.scroll_map(&ring(20)), PadScrollAction::Anchor);
    assert_eq!(pad.last_position_value(), Some(20));
}

#[test]
fn pad_release_forgets_position() {
    let mut pad = Pad::new();
    pad.scroll_map(&ring(20));
    assert_eq!(pad.scroll_map(&ring(0)), PadScrollAction::Release);
    assert_eq!(pad.last_position_value(), None);
    assert_eq!(pad.scroll_map(&ring(22)), PadScrollAction::Anchor);
}

#[test]
fn pad_non_ring_events_leave_state() {
    let mut pad = Pad::new();
    pad.scroll_map(&ring(20));
    assert_eq!(pad.scroll_map(&key(257, 1)), PadScrollAction::Ignore);
    assert_eq!(pad.scroll_map(&InputEvent::new(EV_SYN, 0, 0)), PadScrollAction::Ignore);
    assert_eq!(pad.last_position_value(), Some(20));
}

#[test]
fn pad_overflowing_difference_is_not_admissible() {
    let mut pad = Pad::new();
    assert!(pad.scroll_admissible(&ring(i32::MAX)));
    pad.scroll_map(&ring(i32::MAX));
    assert!(!pad.scroll_admissible(&ring(-10)));
    assert!(pad.scroll_admissible(&ring(10)));
    assert!(pad.scroll_admissible(&ring(0)));
    assert!(pad.scroll_admissible(&key(1, -10)));
}

#[test]
fn pad_scroll_amount_values() {
    assert_eq!(pad_scroll_amount(3, 0), 1);
    assert_eq!(pad_scroll_amount(-2, 5), -5);
    assert_eq!(pad_scroll_amount(1, 7), 7);
    assert_eq!(pad_scroll_amount(-1, -3), -1);
    assert_eq!(pad_scroll_amount(-1, i32::MAX), -i32::MAX);
}

#[test]
fn pad_turning_back_mirrors() {
    let mut p = Pad::new();
    p.scroll_map(&ring(10));
    assert_eq!(p.scroll_map(&ring(15)), PadScrollAction::Step(-5));
    assert_eq!(p.scroll_map(&ring(10)), PadScrollAction::Step(5));
    assert_eq!(p.scroll_map(&ring(40)), PadScrollAction::Anchor);
    assert_eq!(p.scroll_map(&ring(10)), PadScrollAction::Anchor);
}

#[test]
fn pad_reference_follows_actions() {
    let mut p = Pad::new();
    let mut stamped = false;
    for v in [0, 5, 7, 0, 0, 9, 40, 38] {
        match p.scroll_map(&ring(v)) {
            PadScrollAction::Ignore => {}
            PadScrollAction::Release => stamped = false,
            PadScrollAction::Anchor | PadScrollAction::Step(_) => stamped = true,
        }
        assert_eq!(p.last_position_value().is_some(), stamped);
    }
}
