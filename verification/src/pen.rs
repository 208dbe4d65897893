use vstd::prelude::*;

use crate::event::{abs_int, InputEvent, ABS_Y, BTN_STYLUS, EV_ABS, EV_KEY};

verus! {

/// What a pen button event asks for.
#[derive(Clone, Copy, Debug, PartialEq, Eq, Structural)]
pub enum PenKeyAction {
    /// Not the first barrel button: nothing to do.
    Ignore,
    /// The button changed in another way than press or release: pause only.
    Pause,
    /// The button was pressed or released: clear the scroll accumulator, then pause.
    Reset,
}

/// What a pen position event asks for.
#[derive(Clone, Copy, Debug, PartialEq, Eq, Structural)]
pub enum PenScrollAction {
    /// Not a vertical position: nothing to do.
    Ignore,
    /// Scrolling is not engaged: clear the scroll accumulator.
    Reset,
    /// Nothing to send: the position became the origin, or lies within the
    /// dead zone round it.
    Hold,
    /// The pen lies `distance` (the absolute value of `delta`) away from the
    /// origin, beyond the dead zone; `span` is the farthest the pen can get
    /// from the origin on the tablet, against which the distance is weighed.
    Move { delta: i32, distance: i32, span: i32 },
}

/// The height of the tablet's vertical axis.
pub open spec fn tablet_height() -> int {
    20000
}

/// The farthest the pen can lie from an origin at `origin`: the larger of
/// the distances to the two edges, or the whole height where that is not
/// positive.
pub open spec fn pen_span(origin: int) -> int {
    let m = if origin >= tablet_height() - origin {
        origin
    } else {
        tablet_height() - origin
    };
    if m <= 0 {
        tablet_height()
    } else {
        m
    }
}

/// Wherever the origin lies, the pen can get at least half the tablet's
/// height away from it, so the span that weighs a distance is positive.
pub proof fn lemma_pen_span_at_least_half(origin: int)
    ensures
        pen_span(origin) >= tablet_height() / 2,
{
}

/// Once the button is released, no pen motion scrolls.
pub proof fn lemma_release_stops_scrolling(
    active: bool,
    origin: Option<i32>,
    deadzone: int,
    release: InputEvent,
    ev: InputEvent,
)
    requires
        release.kind == EV_KEY,
        release.code == BTN_STYLUS,
        release.value == 0,
    ensures
        ({
            let (_, a, o) = pen_key_spec(active, origin, release);
            !(pen_scroll_spec(a, o, deadzone, ev).0 is Move)
        }),
{
}

/// After the button is pressed, the first vertical position only sets the
/// origin: scrolling starts from where the pen is, not from where it was.
pub proof fn lemma_press_anchors_first(
    active: bool,
    origin: Option<i32>,
    deadzone: int,
    press: InputEvent,
    ev: InputEvent,
)
    requires
        press.kind == EV_KEY,
        press.code == BTN_STYLUS,
        press.value == 1,
        ev.kind == EV_ABS,
        ev.code == ABS_Y,
    ensures
        ({
            let (_, a, o) = pen_key_spec(active, origin, press);
            pen_scroll_spec(a, o, deadzone, ev) == (PenScrollAction::Hold, Some(ev.value))
        }),
{
}

/// Whether the scroll accumulator is known to be zero after a button
/// action: a reset clears it, anything else leaves it as it was.
pub open spec fn cleared_after_key(cleared: bool, a: PenKeyAction) -> bool {
    match a {
        PenKeyAction::Reset => true,
        _ => cleared,
    }
}

/// Whether the scroll accumulator is known to be zero after a position
/// action: a reset clears it, a move adds to it, anything else leaves it.
pub open spec fn cleared_after_scroll(cleared: bool, a: PenScrollAction) -> bool {
    match a {
        PenScrollAction::Reset => true,
        PenScrollAction::Move { .. } => false,
        _ => cleared,
    }
}

/// A pen with its button up has no origin, and a pen without an origin has
/// an empty scroll accumulator: both hold after every button and position
/// event when they held before, with the accumulator kept as the actions say.
pub proof fn lemma_pen_rest_state_kept(
    active: bool,
    origin: Option<i32>,
    deadzone: int,
    cleared: bool,
    ev: InputEvent,
)
    requires
        !active ==> origin is None,
        origin is None ==> cleared,
    ensures
        ({
            let (ka, a1, o1) = pen_key_spec(active, origin, ev);
            &&& !a1 ==> o1 is None
            &&& o1 is None ==> cleared_after_key(cleared, ka)
        }),
        ({
            let (sa, o2) = pen_scroll_spec(active, origin, deadzone, ev);
            &&& !active ==> o2 is None
            &&& o2 is None ==> cleared_after_scroll(cleared, sa)
        }),
{
}

/// What the pen's buttons do: only the first barrel button (code 331) acts.
/// Pressing it engages scrolling, releasing it disengages it, and either
/// forgets the origin and asks for a reset; another value of it only pauses.
/// Every other event is ignored and changes nothing.
pub proof fn lemma_pen_button(active: bool, origin: Option<i32>, ev: InputEvent)
    ensures
        (ev.kind != EV_KEY || ev.code != 331) ==> pen_key_spec(active, origin, ev) == (
            PenKeyAction::Ignore,
            active,
            origin,
        ),
        (ev.kind == EV_KEY && ev.code == 331 && ev.value == 1) ==> pen_key_spec(active, origin, ev)
            == (PenKeyAction::Reset, true, None::<i32>),
        (ev.kind == EV_KEY && ev.code == 331 && ev.value == 0) ==> pen_key_spec(active, origin, ev)
            == (PenKeyAction::Reset, false, None::<i32>),
        (ev.kind == EV_KEY && ev.code == 331 && ev.value != 0 && ev.value != 1) ==> pen_key_spec(
            active,
            origin,
            ev,
        ) == (PenKeyAction::Pause, active, origin),
{
}

/// What the pen's height does. Only vertical positions (absolute axis 1)
/// act. While scrolling is not engaged, each one asks for a reset and leaves
/// no origin. While engaged, the first becomes the origin; a later one within
/// the dead zone of the origin holds; one beyond it moves by its difference
/// from the origin, weighed against the larger of the origin's distances to
/// the top (0) and bottom (20000) of the tablet, and keeps the origin.
pub proof fn lemma_pen_height(active: bool, origin: Option<i32>, deadzone: int, ev: InputEvent)
    ensures
        (ev.kind != EV_ABS || ev.code != 1) ==> pen_scroll_spec(active, origin, deadzone, ev) == (
            PenScrollAction::Ignore,
            origin,
        ),
        (ev.kind == EV_ABS && ev.code == 1 && !active) ==> pen_scroll_spec(
            active,
            origin,
            deadzone,
            ev,
        ) == (PenScrollAction::Reset, None::<i32>),
        (ev.kind == EV_ABS && ev.code == 1 && active && origin is None) ==> pen_scroll_spec(
            active,
            origin,
            deadzone,
            ev,
        ) == (PenScrollAction::Hold, Some(ev.value)),
        (ev.kind == EV_ABS && ev.code == 1 && active && origin is Some) ==> ({
            let o = origin->0 as int;
            let v = ev.value as int;
            let far = if o > 20000 - o {
                o
            } else {
                20000 - o
            };
            &&& (-deadzone <= v - o <= deadzone) ==> pen_scroll_spec(
                active,
                origin,
                deadzone,
                ev,
            ) == (PenScrollAction::Hold, origin)
            &&& (v - o > deadzone || v - o < -deadzone) ==> pen_scroll_spec(
                active,
                origin,
                deadzone,
                ev,
            ) == (
                PenScrollAction::Move {
                    delta: (v - o) as i32,
                    distance: (if v >= o {
                        v - o
                    } else {
                        o - v
                    }) as i32,
                    span: far as i32,
                },
                origin,
            )
        }),
{
}

/// The action and the next engagement and origin for a pen button event.
pub open spec fn pen_key_spec(active: bool, origin: Option<i32>, ev: InputEvent) -> (
    PenKeyAction,
    bool,
    Option<i32>,
) {
    if ev.kind != EV_KEY || ev.code != BTN_STYLUS {
        (PenKeyAction::Ignore, active, origin)
    } else if ev.value == 1 {
        (PenKeyAction::Reset, true, None)
    } else if ev.value == 0 {
        (PenKeyAction::Reset, false, None)
    } else {
        (PenKeyAction::Pause, active, origin)
    }
}

/// The action and the next origin for a pen position event.
pub open spec fn pen_scroll_spec(
    active: bool,
    origin: Option<i32>,
    deadzone: int,
    ev: InputEvent,
) -> (PenScrollAction, Option<i32>) {
    if ev.kind != EV_ABS || ev.code != ABS_Y {
        (PenScrollAction::Ignore, origin)
    } else if !active {
        (PenScrollAction::Reset, None)
    } else {
        match origin {
            None => (PenScrollAction::Hold, Some(ev.value)),
            Some(o) => {
                let delta = ev.value - o;
                if abs_int(delta) <= deadzone {
                    (PenScrollAction::Hold, origin)
                } else {
                    (
                        PenScrollAction::Move {
                            delta: delta as i32,
                            distance: abs_int(delta) as i32,
                            span: pen_span(o as int) as i32,
                        },
                        origin,
                    )
                }
            },
        }
    }
}

/// The pen position event can be handled without an intermediate value
/// leaving the range of `i32`.
pub open spec fn pen_scroll_admissible(
    active: bool,
    origin: Option<i32>,
    deadzone: int,
    ev: InputEvent,
) -> bool {
    (ev.kind == EV_ABS && ev.code == ABS_Y && active && origin is Some) ==> {
        let delta = ev.value - origin->0;
        &&& i32::MIN < delta <= i32::MAX
        &&& abs_int(delta) > deadzone ==> tablet_height() - origin->0 <= i32::MAX
    }
}

/// `steps` bounded to `[-limit, limit]`.
pub open spec fn clamp_steps(steps: int, limit: int) -> int {
    if steps > limit {
        limit
    } else if steps < -limit {
        -limit
    } else {
        steps
    }
}

/// The state of the pen: whether its button engages scrolling, and the
/// position at which scrolling started.
pub struct Pen {
    active: bool,
    origin: Option<i32>,
    deadzone: i32,
    max_steps: i32,
    max_steps_per_event: i32,
}

impl Pen {
    #[verifier::type_invariant]
    closed spec fn inv(self) -> bool {
        &&& 0 <= self.deadzone
        &&& !self.active ==> self.origin is None
        &&& 0 < self.max_steps_per_event
        &&& 0 < self.max_steps
    }

    /// Whether the button is held, so that pen motion scrolls.
    pub closed spec fn engaged(self) -> bool {
        self.active
    }

    /// The position at which scrolling started, once known.
    pub closed spec fn start(self) -> Option<i32> {
        self.origin
    }

    /// Distance from the origin within which the pen does not scroll.
    pub closed spec fn dead_zone(self) -> int {
        self.deadzone as int
    }

    /// Steps at full deflection.
    pub closed spec fn full_steps(self) -> int {
        self.max_steps as int
    }

    /// The largest number of steps sent for one event.
    pub closed spec fn step_limit(self) -> int {
        self.max_steps_per_event as int
    }

    /// A pen that is not scrolling, with a dead zone of 15, 8 steps at full
    /// deflection and at most 3 steps sent per event.
    pub fn new() -> (p: Pen)
        ensures
            !p.engaged(),
            p.start() is None,
            p.dead_zone() == 15,
            p.full_steps() == 8,
            p.step_limit() == 3,
    {
        Pen { active: false, origin: None, deadzone: 15, max_steps: 8, max_steps_per_event: 3 }
    }

    /// The name under which the pen reports itself when cabled.
    pub fn dev_name(&self) -> (r: &'static str)
        ensures
            r@ == "Wacom Intuos5 touch S Pen"@,
    {
        "Wacom Intuos5 touch S Pen"
    }

    /// The name under which the pen reports itself when wireless.
    pub fn dev_wl_name(&self) -> (r: &'static str)
        ensures
            r@ == "Wacom Intuos5 touch S (WL) Pen"@,
    {
        "Wacom Intuos5 touch S (WL) Pen"
    }

    /// Steps at full deflection.
    pub fn max_steps(&self) -> (r: i32)
        ensures
            r == self.full_steps(),
    {
        self.max_steps
    }

    /// Whether `scroll_map` can take this event.
    pub fn scroll_admissible(&self, ev: &InputEvent) -> (r: bool)
        ensures
            r == pen_scroll_admissible(self.engaged(), self.start(), self.dead_zone(), *ev),
    {
        if ev.kind == EV_ABS && ev.code == ABS_Y && self.active {
            match self.origin {
                Some(o) => {
                    let delta = ev.value as i64 - o as i64;
                    let size = if delta < 0 {
                        -delta
                    } else {
                        delta
                    };
                    let fits = (i32::MIN as i64) < delta && delta <= i32::MAX as i64;
                    let edge_fits = size <= self.deadzone as i64 || 20000i64 - (o as i64)
                        <= i32::MAX as i64;
                    fits && edge_fits
                },
                None => true,
            }
        } else {
            true
        }
    }

    /// Takes a pen button event: the first barrel button engages scrolling
    /// while held, and each press or release starts afresh.
    pub fn key_map(&mut self, ev: &InputEvent) -> (r: PenKeyAction)
        ensures
            (r, final(self).engaged(), final(self).start()) == pen_key_spec(
                old(self).engaged(),
                old(self).start(),
                *ev,
            ),
            final(self).dead_zone() == old(self).dead_zone(),
            final(self).full_steps() == old(self).full_steps(),
            final(self).step_limit() == old(self).step_limit(),
            !final(self).engaged() ==> final(self).start() is None,
    {
        proof {
            use_type_invariant(&*self);
        }
        if ev.kind != EV_KEY || ev.code != BTN_STYLUS {
            return PenKeyAction::Ignore;
        }
        if ev.value == 1 {
            self.active = true;
            self.origin = None;
            PenKeyAction::Reset
        } else if ev.value == 0 {
            self.origin = None;
            self.active = false;
            PenKeyAction::Reset
        } else {
            PenKeyAction::Pause
        }
    }

    /// Takes a pen position event: while scrolling is engaged, the first
    /// position becomes the origin, and later ones beyond the dead zone ask
    /// for scrolling in proportion to their distance from it.
    pub fn scroll_map(&mut self, ev: &InputEvent) -> (r: PenScrollAction)
        requires
            pen_scroll_admissible(old(self).engaged(), old(self).start(), old(self).dead_zone(), *ev),
        ensures
            (r, final(self).start()) == pen_scroll_spec(
                old(self).engaged(),
                old(self).start(),
                old(self).dead_zone(),
                *ev,
            ),
            final(self).engaged() == old(self).engaged(),
            !final(self).engaged() ==> final(self).start() is None,
            final(self).dead_zone() == old(self).dead_zone(),
            final(self).full_steps() == old(self).full_steps(),
            final(self).step_limit() == old(self).step_limit(),
            r matches PenScrollAction::Move { delta, distance, span } ==> {
                &&& old(self).engaged()
                &&& old(self).start() is Some
                &&& final(self).start() == old(self).start()
                &&& distance == abs_int(delta as int)
                &&& distance > old(self).dead_zone()
                &&& span >= tablet_height() / 2
            },
    {
        proof {
            use_type_invariant(&*self);
            if let Some(o) = self.origin {
                lemma_pen_span_at_least_half(o as int);
            }
        }
        if ev.kind != EV_ABS || ev.code != ABS_Y {
            return PenScrollAction::Ignore;
        }
        if !self.active {
            self.origin = None;
            return PenScrollAction::Reset;
        }
        let y = ev.value;
        let origin = match self.origin {
            None => {
                self.origin = Some(y);
                return PenScrollAction::Hold;
            },
            Some(o) => o,
        };
        let delta: i32 = y - origin;
        let abs_delta: i32 = if delta < 0 {
            -delta
        } else {
            delta
        };
        if abs_delta <= self.deadzone {
            return PenScrollAction::Hold;
        }
        let other: i32 = 20000 - origin;
        let farthest: i32 = if origin >= other {
            origin
        } else {
            other
        };
        let span: i32 = if farthest <= 0 {
            20000
        } else {
            farthest
        };
        PenScrollAction::Move { delta, distance: abs_delta, span }
    }

    /// The number of steps to send for a whole number of accumulated steps:
    /// bounded by the per-event limit in both directions.
    pub fn limit_steps(&self, steps: i32) -> (r: i32)
        ensures
            r == clamp_steps(steps as int, self.step_limit()),
            abs_int(r as int) <= self.step_limit(),
            abs_int(steps as int) <= self.step_limit() ==> r == steps,
            r > 0 <==> steps > 0,
            r < 0 <==> steps < 0,
            abs_int(steps as int) > self.step_limit() ==> abs_int(r as int) == self.step_limit(),
    {
        proof {
            use_type_invariant(self);
        }
        if steps > self.max_steps_per_event {
            self.max_steps_per_event
        } else if steps < -self.max_steps_per_event {
            -self.max_steps_per_event
        } else {
            steps
        }
    }
}

} // verus!
