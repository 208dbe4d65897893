use tablet_map::event::{InputEvent, EV_REL, EV_SYN, REL_HWHEEL, REL_WHEEL, SYN_REPORT};
use tablet_map::gradual::smooth_scroll;
use tablet_map::monitor::{Monitor, MonitorAction};
use tablet_map::scroll::{click_args, scroll_args, ScrollBatch};
use tablet_map::service::{unit_content, unit_file_name};

#[test]
fn input_event_fields() {
    let ev = InputEvent::new(3, 40, -7);
    assert_eq!(ev.kind, 3);
    assert_eq!(ev.code, 40);
    assert_eq!(ev.value, -7);
}

#[test]
fn smooth_scroll_events() {
    let syn = InputEvent::new(EV_SYN, SYN_REPORT, 0);
    assert_eq!(smooth_scroll(0, 0), vec![syn]);
    assert_eq!(
        smooth_scroll(2, -3),
        vec![InputEvent::new(EV_REL, REL_WHEEL, -3), InputEvent::new(EV_REL, REL_HWHEEL, 2), syn]
    );
    assert_eq!(smooth_scroll(0, 4), vec![InputEvent::new(EV_REL, REL_WHEEL, 4), syn]);
    assert_eq!(smooth_scroll(-1, 0), vec![InputEvent::new(EV_REL, REL_HWHEEL, -1), syn]);
}

#[test]
fn scroll_batch_sums() {
    let mut b = ScrollBatch::start(3);
    b.add(-1);
    b.add(4);
    assert_eq!(b.amount(), Some(6));
}

#[test]
fn scroll_batch_cancelling_sends_nothing() {
    let mut b = ScrollBatch::start(1);
    b.add(-1);
    assert_eq!(b.amount(), None);
    assert_eq!(ScrollBatch::start(0).amount(), None);
}

#[test]
fn scroll_batch_saturates() {
    let mut b = ScrollBatch::start(i32::MAX);
    b.add(5);
    assert_eq!(b.amount(), Some(i32::MAX));
    b.add(-1);
    assert_eq!(b.amount(), Some(i32::MAX - 1));
    let mut c = ScrollBatch::start(i32::MIN);
    c.add(-1);
    assert_eq!(c.amount(), Some(i32::MIN));
}

#[test]
fn ydotool_arguments() {
    assert_eq!(click_args("0xC0"), vec!["click", "0xC0"]);
    assert_eq!(scroll_args("-3"), vec!["mousemove", "-w", "--", "0", "-3"]);
}

#[test]
fn monitor_edges() {
    let mut m = Monitor::new();
    assert_eq!(m.step(false), MonitorAction::Stay);
    assert_eq!(m.step(true), MonitorAction::Start);
    assert_eq!(m.step(true), MonitorAction::Stay);
    assert_eq!(m.step(false), MonitorAction::Stop);
    assert_eq!(m.step(false), MonitorAction::Stay);
    assert_eq!(m.step(true), MonitorAction::Start);
}

#[test]
fn monitor_never_starts_twice_without_stop() {
    let readings = [true, true, false, true, false, false, true, true];
    let mut m = Monitor::new();
    let mut running = false;
    for r in readings {
        match m.step(r) {
            MonitorAction::Start => {
                assert!(!running);
                running = true;
            }
            MonitorAction::Stop => {
                assert!(running);
                running = false;
            }
            MonitorAction::Stay => {}
        }
    }
    assert!(running);
}

#[test]
fn service_unit_text() {
    let expected = "[Unit]\n      Description=Tablet Map Service for Wacom Intuos5\n\n      [Service]\n      ExecStart=/home/u/.local/bin/tablet-map\n      Restart=no\n      StandardOutput=journal\n      StandardError=journal\n\n      [Install]\n      WantedBy=default.target\n    ";
    assert_eq!(unit_content("/home/u/.local/bin/tablet-map"), expected);
    assert_eq!(unit_file_name(), "tablet-map.service");
}

#[test]
fn scroll_windows_add_up_to_the_stream() {
    let windows: [&[i32]; 3] = [&[3, -1], &[1, -1], &[5]];
    let mut sent = Vec::new();
    for w in windows {
        let mut b = ScrollBatch::start(w[0]);
        for v in &w[1..] {
            b.add(*v);
        }
        if let Some(a) = b.amount() {
            sent.push(a);
        }
    }
    assert_eq!(sent, vec![2, 5]);
    assert_eq!(sent.iter().sum::<i32>(), 3 - 1 + 1 - 1 + 5);
}
