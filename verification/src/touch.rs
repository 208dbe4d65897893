use vstd::prelude::*;

use crate::event::{InputEvent, ABS_X, ABS_Y, BTN_LEFT, BTN_TOOL_TRIPLETAP, EV_ABS, EV_KEY, EV_SYN};

verus! {

/// The state of the touch surface, as plain values.
#[derive(Clone, Copy, Debug, PartialEq, Eq, Structural)]
pub struct TouchView {
    /// Three fingers rest on the surface: their motion drags the pointer.
    pub tracking: bool,
    /// The position of the last report that was turned into motion.
    pub last_x: Option<i32>,
    pub last_y: Option<i32>,
    /// The latest position seen while three fingers rest on the surface.
    pub current_x: Option<i32>,
    pub current_y: Option<i32>,
    /// The latest position seen otherwise.
    pub before_x: Option<i32>,
    pub before_y: Option<i32>,
}

/// A change of relative position between two reports, in touch-surface units.
#[derive(Clone, Copy, Debug, PartialEq, Eq, Structural)]
pub struct Motion {
    pub dx: i32,
    pub dy: i32,
}

/// The next state and the button event to emit for a three-finger event:
/// putting three fingers down presses the left button and takes the last
/// position seen as the starting point; lifting them releases it.
pub open spec fn tripletap_spec(s: TouchView, ev: InputEvent) -> (TouchView, Option<InputEvent>) {
    if ev.kind == EV_KEY && ev.code == BTN_TOOL_TRIPLETAP {
        if ev.value == 1 {
            (
                TouchView { tracking: true, last_x: s.before_x, last_y: s.before_y, ..s },
                Some(InputEvent { kind: EV_KEY, code: BTN_LEFT, value: 1 }),
            )
        } else if ev.value == 0 {
            (
                TouchView { tracking: false, ..s },
                Some(InputEvent { kind: EV_KEY, code: BTN_LEFT, value: 0 }),
            )
        } else {
            (s, None)
        }
    } else {
        (s, None)
    }
}

/// The next state for a position event.
pub open spec fn absolute_spec(s: TouchView, ev: InputEvent) -> TouchView {
    if ev.kind == EV_ABS {
        if ev.code == ABS_X {
            if s.tracking {
                TouchView { current_x: Some(ev.value), ..s }
            } else {
                TouchView { before_x: Some(ev.value), ..s }
            }
        } else if ev.code == ABS_Y {
            if s.tracking {
                TouchView { current_y: Some(ev.value), ..s }
            } else {
                TouchView { before_y: Some(ev.value), ..s }
            }
        } else {
            s
        }
    } else {
        s
    }
}

/// A missing coordinate counts as zero.
pub open spec fn or_zero(v: Option<i32>) -> int {
    match v {
        Some(x) => x as int,
        None => 0,
    }
}

/// The next state and the motion to report for a synchronisation event:
/// with a last reported position, the motion from it to the current one;
/// the current position then becomes the last reported one.
pub open spec fn sync_spec(s: TouchView, ev: InputEvent) -> (TouchView, Option<Motion>) {
    if ev.kind == EV_SYN {
        let next = TouchView { last_x: s.current_x, last_y: s.current_y, ..s };
        match (s.last_x, s.last_y) {
            (Some(px), Some(py)) => (
                next,
                Some(
                    Motion {
                        dx: (or_zero(s.current_x) - px) as i32,
                        dy: (or_zero(s.current_y) - py) as i32,
                    },
                ),
            ),
            _ => (next, None),
        }
    } else {
        (s, None)
    }
}

/// The synchronisation event can be handled without a difference of
/// positions leaving the range of `i32`.
pub open spec fn sync_admissible(s: TouchView, ev: InputEvent) -> bool {
    (ev.kind == EV_SYN && s.last_x is Some && s.last_y is Some) ==> {
        &&& i32::MIN <= or_zero(s.current_x) - s.last_x->0 <= i32::MAX
        &&& i32::MIN <= or_zero(s.current_y) - s.last_y->0 <= i32::MAX
    }
}

/// Without three fingers on the surface, the pointer does not move: once a
/// report has been made, position events alone lead to no motion at the next
/// report.
pub proof fn lemma_idle_touch_is_still(s: TouchView, sync: InputEvent, ev: InputEvent, next: InputEvent)
    requires
        !s.tracking,
        sync.kind == EV_SYN,
        next.kind == EV_SYN,
    ensures
        ({
            let s1 = sync_spec(s, sync).0;
            let s2 = absolute_spec(s1, ev);
            sync_spec(s2, next).1 matches Some(m) ==> m.dx == 0 && m.dy == 0
        }),
{
}

/// A drag starts from the last position seen before the fingers came down:
/// the first report measures motion from there.
pub proof fn lemma_drag_starts_at_last_seen(s: TouchView, press: InputEvent, sync: InputEvent)
    requires
        press.kind == EV_KEY,
        press.code == BTN_TOOL_TRIPLETAP,
        press.value == 1,
        sync.kind == EV_SYN,
        s.before_x is Some,
        s.before_y is Some,
        sync_admissible(tripletap_spec(s, press).0, sync),
    ensures
        sync_spec(tripletap_spec(s, press).0, sync).1 == Some(
            Motion {
                dx: (or_zero(s.current_x) - s.before_x->0) as i32,
                dy: (or_zero(s.current_y) - s.before_y->0) as i32,
            },
        ),
{
}

/// What the three-finger key does: only key code 0x14e (three fingers on the
/// surface) acts. Its press (value 1) starts tracking from the last position
/// seen and presses the left mouse button (0x110); its release (value 0)
/// stops tracking and releases that button; the positions are otherwise kept.
/// Every other event emits nothing and leaves the state as it was.
pub proof fn lemma_tripletap_key(s: TouchView, ev: InputEvent)
    ensures
        (ev.kind != EV_KEY || ev.code != 0x14e || (ev.value != 0 && ev.value != 1))
            ==> tripletap_spec(s, ev) == (s, None::<InputEvent>),
        (ev.kind == EV_KEY && ev.code == 0x14e && ev.value == 1) ==> ({
            let (n, out) = tripletap_spec(s, ev);
            &&& out == Some(InputEvent { kind: 1, code: 0x110, value: 1 })
            &&& n.tracking
            &&& n.last_x == s.before_x && n.last_y == s.before_y
            &&& n.current_x == s.current_x && n.current_y == s.current_y
            &&& n.before_x == s.before_x && n.before_y == s.before_y
        }),
        (ev.kind == EV_KEY && ev.code == 0x14e && ev.value == 0) ==> ({
            let (n, out) = tripletap_spec(s, ev);
            &&& out == Some(InputEvent { kind: 1, code: 0x110, value: 0 })
            &&& !n.tracking
            &&& n.last_x == s.last_x && n.last_y == s.last_y
            &&& n.current_x == s.current_x && n.current_y == s.current_y
            &&& n.before_x == s.before_x && n.before_y == s.before_y
        }),
{
}

/// What a position does: an absolute X (axis 0) or Y (axis 1) value is kept
/// as the current position while three fingers rest on the surface, and as
/// the last position seen otherwise; nothing else changes.
pub proof fn lemma_touch_position(s: TouchView, ev: InputEvent)
    ensures
        (ev.kind != EV_ABS || (ev.code != 0 && ev.code != 1)) ==> absolute_spec(s, ev) == s,
        (ev.kind == EV_ABS && ev.code == 0 && s.tracking) ==> absolute_spec(s, ev) == (TouchView {
            current_x: Some(ev.value),
            ..s
        }),
        (ev.kind == EV_ABS && ev.code == 0 && !s.tracking) ==> absolute_spec(s, ev) == (TouchView {
            before_x: Some(ev.value),
            ..s
        }),
        (ev.kind == EV_ABS && ev.code == 1 && s.tracking) ==> absolute_spec(s, ev) == (TouchView {
            current_y: Some(ev.value),
            ..s
        }),
        (ev.kind == EV_ABS && ev.code == 1 && !s.tracking) ==> absolute_spec(s, ev) == (TouchView {
            before_y: Some(ev.value),
            ..s
        }),
{
}

/// What a report does: a synchronisation event (type 0) reports a motion
/// exactly when a last reported position is known on both axes, the motion
/// from it to the current position (a missing coordinate counting as 0), and
/// the current position becomes the last reported one; every other event
/// reports nothing and changes nothing.
pub proof fn lemma_touch_report(s: TouchView, ev: InputEvent)
    requires
        sync_admissible(s, ev),
    ensures
        ev.kind != 0 ==> sync_spec(s, ev) == (s, None::<Motion>),
        ev.kind == 0 ==> ({
            let (n, m) = sync_spec(s, ev);
            &&& n.last_x == s.current_x && n.last_y == s.current_y
            &&& n.tracking == s.tracking
            &&& n.current_x == s.current_x && n.current_y == s.current_y
            &&& n.before_x == s.before_x && n.before_y == s.before_y
            &&& m is Some <==> (s.last_x is Some && s.last_y is Some)
            &&& m is Some ==> m->0.dx == (match s.current_x {
                Some(x) => x as int,
                None => 0,
            }) - s.last_x->0 && m->0.dy == (match s.current_y {
                Some(y) => y as int,
                None => 0,
            }) - s.last_y->0
        }),
{
}

/// The touch surface: three fingers drag with the left button held.
pub struct Touch {
    tripletap_active: bool,
    last_process_x: Option<i32>,
    last_process_y: Option<i32>,
    current_x: Option<i32>,
    current_y: Option<i32>,
    last_abs_before_tripletap_x: Option<i32>,
    last_abs_before_tripletap_y: Option<i32>,
}

impl View for Touch {
    type V = TouchView;

    closed spec fn view(&self) -> TouchView {
        TouchView {
            tracking: self.tripletap_active,
            last_x: self.last_process_x,
            last_y: self.last_process_y,
            current_x: self.current_x,
            current_y: self.current_y,
            before_x: self.last_abs_before_tripletap_x,
            before_y: self.last_abs_before_tripletap_y,
        }
    }
}

/// The difference of two coordinates, which must fit an `i32`.
fn coordinate_delta(to: Option<i32>, from: i32) -> (d: i32)
    requires
        i32::MIN <= or_zero(to) - from <= i32::MAX,
    ensures
        d == or_zero(to) - from,
{
    let t: i32 = match to {
        Some(x) => x,
        None => 0,
    };
    t - from
}

/// The difference of two coordinates fits an `i32`.
fn coordinate_delta_fits(to: Option<i32>, from: i32) -> (r: bool)
    ensures
        r == (i32::MIN <= or_zero(to) - from <= i32::MAX),
{
    let t: i64 = match to {
        Some(x) => x as i64,
        None => 0,
    };
    let d = t - from as i64;
    i32::MIN as i64 <= d && d <= i32::MAX as i64
}

impl Touch {
    /// A touch surface with no fingers and no positions seen.
    pub fn new() -> (t: Touch)
        ensures
            t@ == (TouchView {
                tracking: false,
                last_x: None,
                last_y: None,
                current_x: None,
                current_y: None,
                before_x: None,
                before_y: None,
            }),
    {
        Touch {
            tripletap_active: false,
            last_process_x: None,
            last_process_y: None,
            current_x: None,
            current_y: None,
            last_abs_before_tripletap_x: None,
            last_abs_before_tripletap_y: None,
        }
    }

    /// The name under which the touch surface reports itself.
    pub fn dev_name(&self) -> (r: &'static str)
        ensures
            r@ == "Wacom Intuos5 touch S Finger"@,
    {
        "Wacom Intuos5 touch S Finger"
    }

    /// Takes a three-finger event and returns the button event to emit.
    pub fn setup_tripletap(&mut self, ev: &InputEvent) -> (r: Option<InputEvent>)
        ensures
            (final(self)@, r) == tripletap_spec(old(self)@, *ev),
    {
        if ev.kind == EV_KEY && ev.code == BTN_TOOL_TRIPLETAP {
            if ev.value == 1 {
                self.tripletap_active = true;
                self.last_process_x = self.last_abs_before_tripletap_x;
                self.last_process_y = self.last_abs_before_tripletap_y;
                return Some(InputEvent::new(EV_KEY, BTN_LEFT, 1));
            } else if ev.value == 0 {
                self.tripletap_active = false;
                return Some(InputEvent::new(EV_KEY, BTN_LEFT, 0));
            }
        }
        None
    }

    /// Takes a position event.
    pub fn process_absolute(&mut self, ev: &InputEvent)
        ensures
            final(self)@ == absolute_spec(old(self)@, *ev),
    {
        if ev.kind == EV_ABS {
            let val = ev.value;
            if ev.code == ABS_X {
                if self.tripletap_active {
                    self.current_x = Some(val);
                } else {
                    self.last_abs_before_tripletap_x = Some(val);
                }
            } else if ev.code == ABS_Y {
                if self.tripletap_active {
                    self.current_y = Some(val);
                } else {
                    self.last_abs_before_tripletap_y = Some(val);
                }
            }
        }
    }

    /// Whether `sync_motion` can take this event.
    pub fn sync_admissible(&self, ev: &InputEvent) -> (r: bool)
        ensures
            r == sync_admissible(self@, *ev),
    {
        if ev.kind == EV_SYN {
            match (self.last_process_x, self.last_process_y) {
                (Some(px), Some(py)) => coordinate_delta_fits(self.current_x, px)
                    && coordinate_delta_fits(self.current_y, py),
                _ => true,
            }
        } else {
            true
        }
    }

    /// The motion that a synchronisation event reports, without taking the
    /// event: the report is to be emitted first, and only once it has been
    /// is the event committed with `commit_sync`.
    pub fn sync_motion(&self, ev: &InputEvent) -> (r: Option<Motion>)
        requires
            sync_admissible(self@, *ev),
        ensures
            r == sync_spec(self@, *ev).1,
    {
        if ev.kind != EV_SYN {
            return None;
        }
        match (self.last_process_x, self.last_process_y) {
            (Some(px), Some(py)) => Some(
                Motion {
                    dx: coordinate_delta(self.current_x, px),
                    dy: coordinate_delta(self.current_y, py),
                },
            ),
            _ => None,
        }
    }

    /// Takes a synchronisation event whose report was emitted: the current
    /// position becomes the last reported one.
    pub fn commit_sync(&mut self, ev: &InputEvent)
        ensures
            final(self)@ == sync_spec(old(self)@, *ev).0,
    {
        if ev.kind == EV_SYN {
            self.last_process_x = self.current_x;
            self.last_process_y = self.current_y;
        }
    }
}

} // verus!
