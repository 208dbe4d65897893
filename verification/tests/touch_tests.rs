use tablet_map::event::{InputEvent, ABS_X, ABS_Y, BTN_LEFT, BTN_TOOL_TRIPLETAP, EV_ABS, EV_KEY, EV_SYN};
use tablet_map::touch::{Motion, Touch};

fn abs(code: u16, value: i32) -> InputEvent {
    InputEvent::new(EV_ABS, code, value)
}

fn sync() -> InputEvent {
    InputEvent::new(EV_SYN, 0, 0)
}

fn sync_step(t: &mut Touch) -> Option<Motion> {
    let m = t.sync_motion(&sync());
    t.commit_sync(&sync());
    m
}

fn tripletap(value: i32) -> InputEvent {
    InputEvent::new(EV_KEY, BTN_TOOL_TRIPLETAP, value)
}

#[test]
fn touch_no_motion_before_positions() {
    let mut t = Touch::new();
    assert_eq!(sync_step(&mut t), None);
    t.process_absolute(&abs(ABS_X, 5));
    assert_eq!(sync_step(&mut t), None);
    assert_eq!(t.dev_name(), "Wacom Intuos5 touch S Finger");
}

#[test]
fn touch_tripletap_presses_left_button() {
    let mut t = Touch::new();
    assert_eq!(t.setup_tripletap(&tripletap(1)), Some(InputEvent::new(EV_KEY, BTN_LEFT, 1)));
    assert_eq!(t.setup_tripletap(&tripletap(0)), Some(InputEvent::new(EV_KEY, BTN_LEFT, 0)));
    assert_eq!(t.setup_tripletap(&tripletap(2)), None);
    assert_eq!(t.setup_tripletap(&InputEvent::new(EV_KEY, BTN_LEFT, 1)), None);
}

#[test]
fn touch_drag_starts_at_last_seen() {
    let mut t = Touch::new();
    t.process_absolute(&abs(ABS_X, 100));
    t.process_absolute(&abs(ABS_Y, 200));
    t.setup_tripletap(&tripletap(1));
    t.process_absolute(&abs(ABS_X, 110));
    t.process_absolute(&abs(ABS_Y, 190));
    assert_eq!(sync_step(&mut t), Some(Motion { dx: 10, dy: -10 }));
    assert_eq!(sync_step(&mut t), Some(Motion { dx: 0, dy: 0 }));
    t.process_absolute(&abs(ABS_X, 130));
    assert_eq!(sync_step(&mut t), Some(Motion { dx: 20, dy: 0 }));
}

#[test]
fn touch_idle_is_still() {
    let mut t = Touch::new();
    t.process_absolute(&abs(ABS_X, 100));
    t.process_absolute(&abs(ABS_Y, 200));
    t.setup_tripletap(&tripletap(1));
    t.process_absolute(&abs(ABS_X, 150));
    t.process_absolute(&abs(ABS_Y, 250));
    t.setup_tripletap(&tripletap(0));
    assert_eq!(sync_step(&mut t), Some(Motion { dx: 50, dy: 50 }));
    t.process_absolute(&abs(ABS_X, 900));
    t.process_absolute(&abs(ABS_Y, 900));
    assert_eq!(sync_step(&mut t), Some(Motion { dx: 0, dy: 0 }));
}

#[test]
fn touch_missing_current_counts_as_zero() {
    let mut t = Touch::new();
    t.process_absolute(&abs(ABS_X, 100));
    t.process_absolute(&abs(ABS_Y, 200));
    t.setup_tripletap(&tripletap(1));
    t.process_absolute(&abs(ABS_X, 120));
    assert_eq!(sync_step(&mut t), Some(Motion { dx: 20, dy: -200 }));
}

#[test]
fn touch_overflow_is_not_admissible() {
    let mut t = Touch::new();
    t.process_absolute(&abs(ABS_X, i32::MIN));
    t.process_absolute(&abs(ABS_Y, 0));
    t.setup_tripletap(&tripletap(1));
    t.process_absolute(&abs(ABS_X, 1));
    t.process_absolute(&abs(ABS_Y, 1));
    assert!(!t.sync_admissible(&sync()));
    assert!(t.sync_admissible(&abs(ABS_X, 1)));
}

#[test]
fn touch_uncommitted_report_keeps_reference() {
    let mut t = Touch::new();
    t.process_absolute(&abs(ABS_X, 100));
    t.process_absolute(&abs(ABS_Y, 200));
    t.setup_tripletap(&tripletap(1));
    t.process_absolute(&abs(ABS_X, 110));
    assert_eq!(t.sync_motion(&sync()), Some(Motion { dx: 10, dy: -200 }));
    t.process_absolute(&abs(ABS_Y, 190));
    assert_eq!(t.sync_motion(&sync()), Some(Motion { dx: 10, dy: -10 }));
    t.commit_sync(&abs(ABS_X, 5));
    assert_eq!(t.sync_motion(&sync()), Some(Motion { dx: 10, dy: -10 }));
    t.commit_sync(&sync());
    assert_eq!(t.sync_motion(&sync()), Some(Motion { dx: 0, dy: 0 }));
}
