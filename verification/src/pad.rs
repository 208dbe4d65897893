use vstd::prelude::*;

use crate::event::{abs_int, InputEvent, EV_ABS, EV_KEY};

verus! {

/// A click that a pad button stands for.
#[derive(Clone, Copy, Debug, PartialEq, Eq, Structural)]
pub enum PadClick {
    Left,
    Middle,
    Right,
}

impl PadClick {
    /// The argument that names this click to `ydotool click`.
    pub open spec fn arg_spec(self) -> Seq<char> {
        match self {
            PadClick::Left => "0xC0"@,
            PadClick::Middle => "0xC2"@,
            PadClick::Right => "0xC1"@,
        }
    }

    /// The argument that names this click to `ydotool click`.
    pub fn arg(&self) -> (r: &'static str)
        ensures
            r@ == self.arg_spec(),
    {
        match self {
            PadClick::Left => "0xC0",
            PadClick::Middle => "0xC2",
            PadClick::Right => "0xC1",
        }
    }
}

/// What a pad button event asks for.
#[derive(Clone, Copy, Debug, PartialEq, Eq, Structural)]
pub enum PadKeyAction {
    /// Not a button press: nothing to do.
    Ignore,
    /// A press of a button that maps to no click: only the pause follows.
    Pause,
    /// A press that sends this click, then pauses.
    Click(PadClick),
}

/// The action for a pad button event: the six express keys map, in two
/// mirrored groups of three, to left, middle and right clicks.
pub open spec fn pad_key_action(ev: InputEvent) -> PadKeyAction {
    if ev.kind == EV_KEY && ev.value == 1 {
        if ev.code == 257 || ev.code == 260 {
            PadKeyAction::Click(PadClick::Left)
        } else if ev.code == 258 || ev.code == 261 {
            PadKeyAction::Click(PadClick::Middle)
        } else if ev.code == 259 || ev.code == 262 {
            PadKeyAction::Click(PadClick::Right)
        } else {
            PadKeyAction::Pause
        }
    } else {
        PadKeyAction::Ignore
    }
}

/// The two groups of three express keys mirror each other: a key and the key
/// three codes above it give the same action.
pub proof fn lemma_key_groups_mirror(code: u16, value: i32)
    requires
        257 <= code <= 259,
    ensures
        pad_key_action(InputEvent { kind: EV_KEY, code, value }) == pad_key_action(
            InputEvent { kind: EV_KEY, code: (code + 3) as u16, value },
        ),
{
}

/// What a touch-ring event asks for.
#[derive(Clone, Copy, Debug, PartialEq, Eq, Structural)]
pub enum PadScrollAction {
    /// Not a ring event: nothing to do.
    Ignore,
    /// The finger left the ring: forget the time of the last position.
    Release,
    /// A new reference position: record the time, send nothing.
    Anchor,
    /// Scroll by this many ring steps (its sign is the direction); the
    /// position becomes the new reference and its time is recorded.
    Step(i32),
}

/// The signed scroll step for a ring that moved from `prev` to `value` on a
/// ring of `range` positions: the shorter way round, with the sign flipped so
/// that clockwise motion scrolls down.
pub open spec fn ring_step(value: int, prev: int, range: int) -> int {
    let raw = (value - prev) % range;
    let signed = if raw > range / 2 {
        raw - range
    } else {
        raw
    };
    -signed
}

/// The action and the next reference position for a ring event, given the
/// reference position, the ring size and the largest step taken as motion.
pub open spec fn pad_scroll_spec(
    prev: Option<i32>,
    range: int,
    jump: int,
    ev: InputEvent,
) -> (PadScrollAction, Option<i32>) {
    if ev.kind != EV_ABS {
        (PadScrollAction::Ignore, prev)
    } else if ev.value == 0 {
        (PadScrollAction::Release, None)
    } else {
        match prev {
            None => (PadScrollAction::Anchor, Some(ev.value)),
            Some(p) => {
                let s = ring_step(ev.value as int, p as int, range);
                if abs_int(s) > jump || s == 0 {
                    (PadScrollAction::Anchor, Some(ev.value))
                } else {
                    (PadScrollAction::Step(s as i32), Some(ev.value))
                }
            },
        }
    }
}

/// The ring event can be handled without the difference of positions
/// leaving the range of `i32`.
pub open spec fn pad_scroll_admissible(prev: Option<i32>, ev: InputEvent) -> bool {
    ev.kind == EV_ABS && ev.value != 0 && prev is Some ==> i32::MIN <= ev.value - prev->0
        <= i32::MAX
}

/// The number of lines to scroll for a ring step, given the magnitude that the
/// speed of the motion gave: at least one line, in the direction of the step.
pub open spec fn pad_scroll_amount_spec(step: int, magnitude: int) -> int {
    let m = if magnitude < 1 {
        1
    } else {
        magnitude
    };
    if step > 0 {
        m
    } else {
        -m
    }
}

/// Scroll amount for a ring step of the given sign and a speed-derived magnitude.
pub fn pad_scroll_amount(step: i32, magnitude: i32) -> (r: i32)
    ensures
        r == pad_scroll_amount_spec(step as int, magnitude as int),
        r != 0,
        r > 0 <==> step > 0,
        abs_int(r as int) >= magnitude,
        abs_int(r as int) == (if magnitude < 1 {
            1
        } else {
            magnitude as int
        }),
{
    let m = if magnitude < 1 {
        1
    } else {
        magnitude
    };
    if step > 0 {
        m
    } else {
        -m
    }
}

/// A ring step goes the shorter way round: it is never more than half the
/// ring in either direction.
pub proof fn lemma_ring_step_bounded(value: int, prev: int, range: int)
    requires
        range > 0,
    ensures
        -(range / 2) <= ring_step(value, prev, range) <= range / 2,
{
}

/// A ring step depends only on where the ring stands, not on how many turns
/// lie behind it: moving the new position a whole turn changes nothing.
pub proof fn lemma_ring_step_periodic(value: int, prev: int, range: int, turns: int)
    requires
        range > 0,
    ensures
        ring_step(value + turns * range, prev, range) == ring_step(value, prev, range),
{
    assert((value + turns * range - prev) % range == (value - prev) % range) by (nonlinear_arith)
        requires
            range > 0,
    {
        vstd::arithmetic::div_mod::lemma_mod_multiples_vanish(turns, value - prev, range);
    }
}

/// Moving one position clockwise scrolls one step one way, and one position
/// back scrolls one step the other way.
pub proof fn lemma_ring_unit_steps(prev: int, range: int)
    requires
        range > 2,
    ensures
        ring_step(prev + 1, prev, range) == -1,
        ring_step(prev - 1, prev, range) == 1,
{
    assert(1int % range == 1) by (nonlinear_arith)
        requires
            range > 2,
    ;
    assert((-1int) % range == range - 1) by (nonlinear_arith)
        requires
            range > 2,
    ;
    assert(prev + 1 - prev == 1);
    assert(prev - 1 - prev == -1);
}

/// Whether a time stamp of the last ring position is held after an action,
/// given whether one was held before: a release forgets it, an anchor or a
/// step records it, anything else keeps it.
pub open spec fn stamped_after(stamped: bool, a: PadScrollAction) -> bool {
    match a {
        PadScrollAction::Ignore => stamped,
        PadScrollAction::Release => false,
        PadScrollAction::Anchor => true,
        PadScrollAction::Step(_) => true,
    }
}

/// A reference position is known exactly when a time stamp for it is held:
/// if that is so before a ring event, it is so after it, when the stamp is
/// kept as the action says.
pub proof fn lemma_reference_matches_stamp(
    prev: Option<i32>,
    range: int,
    jump: int,
    ev: InputEvent,
    stamped: bool,
)
    requires
        (prev is Some) == stamped,
    ensures
        ({
            let (a, p) = pad_scroll_spec(prev, range, jump, ev);
            (p is Some) == stamped_after(stamped, a)
        }),
{
}

/// Turning the ring back undoes a step: a step of less than half the ring
/// from `a` to `b` is the negation of the step from `b` to `a`.
pub proof fn lemma_ring_step_reverses(a: int, b: int, range: int)
    requires
        range > 0,
        2 * abs_int(ring_step(b, a, range)) < range,
    ensures
        ring_step(a, b, range) == -ring_step(b, a, range),
{
    let r = (b - a) % range;
    let q = (b - a) / range;
    vstd::arithmetic::div_mod::lemma_fundamental_div_mod(b - a, range);
    assert(b - a == range * q + r);
    assert(0 <= r < range);
    if r == 0 {
        assert(a - b == (-q) * range + 0) by (nonlinear_arith)
            requires
                b - a == range * q + r,
                r == 0,
        ;
        vstd::arithmetic::div_mod::lemma_fundamental_div_mod_converse(a - b, range, -q, 0);
    } else {
        assert(a - b == (-q - 1) * range + (range - r)) by (nonlinear_arith)
            requires
                b - a == range * q + r,
        ;
        vstd::arithmetic::div_mod::lemma_fundamental_div_mod_converse(
            a - b,
            range,
            -q - 1,
            range - r,
        );
    }
}

/// With a jump limit under half the ring, turning the ring back mirrors the
/// scroll: a step from `a` to `b` becomes the opposite step from `b` to `a`,
/// and a position change that only re-anchors does so both ways.
pub proof fn lemma_turn_back_mirrors(
    a: i32,
    b: i32,
    range: int,
    jump: int,
    to_b: InputEvent,
    to_a: InputEvent,
)
    requires
        0 < range <= i32::MAX,
        0 <= jump,
        2 * jump < range,
        a != 0,
        b != 0,
        to_b.kind == EV_ABS,
        to_b.value == b,
        to_a.kind == EV_ABS,
        to_a.value == a,
    ensures
        ({
            let there = pad_scroll_spec(Some(a), range, jump, to_b).0;
            let back = pad_scroll_spec(Some(b), range, jump, to_a).0;
            &&& there matches PadScrollAction::Step(s) ==> back == PadScrollAction::Step(
                (-s) as i32,
            )
            &&& (there == PadScrollAction::Anchor) == (back == PadScrollAction::Anchor)
        }),
{
    let s_ab = ring_step(b as int, a as int, range);
    let s_ba = ring_step(a as int, b as int, range);
    lemma_ring_step_bounded(b as int, a as int, range);
    lemma_ring_step_bounded(a as int, b as int, range);
    if 2 * abs_int(s_ab) < range {
        lemma_ring_step_reverses(a as int, b as int, range);
    } else if 2 * abs_int(s_ba) < range {
        lemma_ring_step_reverses(b as int, a as int, range);
    }
}

/// What the express keys do: only a press (value 1) of a key acts; the keys
/// 257 and 260 left-click, 258 and 261 middle-click, 259 and 262 right-click,
/// and any other key press only pauses.
pub proof fn lemma_pad_keys(ev: InputEvent)
    ensures
        ev.kind != EV_KEY ==> pad_key_action(ev) == PadKeyAction::Ignore,
        ev.value != 1 ==> pad_key_action(ev) == PadKeyAction::Ignore,
        ev.kind == EV_KEY && ev.value == 1 && (ev.code == 257 || ev.code == 260) ==> pad_key_action(
            ev,
        ) == PadKeyAction::Click(PadClick::Left),
        ev.kind == EV_KEY && ev.value == 1 && (ev.code == 258 || ev.code == 261) ==> pad_key_action(
            ev,
        ) == PadKeyAction::Click(PadClick::Middle),
        ev.kind == EV_KEY && ev.value == 1 && (ev.code == 259 || ev.code == 262) ==> pad_key_action(
            ev,
        ) == PadKeyAction::Click(PadClick::Right),
        ev.kind == EV_KEY && ev.value == 1 && !(257 <= ev.code <= 262) ==> pad_key_action(ev)
            == PadKeyAction::Pause,
{
}

/// The clicks are named to `ydotool` by the codes of a full left, middle and
/// right click.
pub proof fn lemma_click_names()
    ensures
        PadClick::Left.arg_spec() == "0xC0"@,
        PadClick::Middle.arg_spec() == "0xC2"@,
        PadClick::Right.arg_spec() == "0xC1"@,
{
}

/// What the touch ring does with a position `v` read while the reference is
/// `p`. With `d` the distance from `p` to `v` counted forward round the ring
/// (the Euclidean remainder of `v - p`): when the shorter way round is
/// forward by `d` within the jump limit, it scrolls by `-d`; when it is
/// backward by `range - d` within the jump limit, it scrolls by
/// `range - d`; when the ring did not move or moved farther, it only
/// re-anchors. In each case `v` becomes the reference.
pub proof fn lemma_ring_turn_scrolls(p: i32, ev: InputEvent, range: int, jump: int)
    requires
        0 < range <= i32::MAX,
        0 <= jump,
        ev.kind == EV_ABS,
        ev.value != 0,
    ensures
        ({
            let d = (ev.value - p) % range;
            let (a, next) = pad_scroll_spec(Some(p), range, jump, ev);
            &&& 0 <= d < range
            &&& next == Some(ev.value)
            &&& (1 <= d <= jump && 2 * d <= range) ==> a == PadScrollAction::Step((-d) as i32)
            &&& (1 <= range - d <= jump && 2 * d > range) ==> a == PadScrollAction::Step(
                (range - d) as i32,
            )
            &&& (d == 0 || (2 * d <= range && d > jump) || (2 * d > range && range - d > jump))
                ==> a == PadScrollAction::Anchor
        }),
{
}

/// The ring's other events: anything but an absolute position is ignored and
/// keeps the reference, a position of 0 (the finger lifted) releases it, and
/// the first position without a reference only anchors there.
pub proof fn lemma_ring_other_events(prev: Option<i32>, range: int, jump: int, ev: InputEvent)
    ensures
        ev.kind != EV_ABS ==> pad_scroll_spec(prev, range, jump, ev) == (
            PadScrollAction::Ignore,
            prev,
        ),
        ev.kind == EV_ABS && ev.value == 0 ==> pad_scroll_spec(prev, range, jump, ev) == (
            PadScrollAction::Release,
            None::<i32>,
        ),
        ev.kind == EV_ABS && ev.value != 0 && prev is None ==> pad_scroll_spec(
            prev,
            range,
            jump,
            ev,
        ) == (PadScrollAction::Anchor, Some(ev.value)),
{
}

/// The state of the pad: its express keys and the touch ring.
pub struct Pad {
    prev: Option<i32>,
    range: i32,
    jump_threshold: i32,
}

impl Pad {
    #[verifier::type_invariant]
    closed spec fn inv(self) -> bool {
        &&& 0 < self.range
        &&& 0 <= self.jump_threshold
    }

    /// The last ring position taken as reference, if the finger is on the ring.
    pub closed spec fn last_position(self) -> Option<i32> {
        self.prev
    }

    /// The number of positions round the ring.
    pub closed spec fn ring_size(self) -> int {
        self.range as int
    }

    /// The largest step still taken as motion; a larger one is a jump.
    pub closed spec fn jump_limit(self) -> int {
        self.jump_threshold as int
    }

    /// A pad with no finger on the ring, a ring of 72 positions and jumps
    /// above 14 positions.
    pub fn new() -> (p: Pad)
        ensures
            p.last_position() is None,
            p.ring_size() == 72,
            p.jump_limit() == 14,
    {
        Pad { prev: None, range: 72, jump_threshold: 14 }
    }

    /// The name under which the pad reports itself when cabled.
    pub fn dev_name(&self) -> (r: &'static str)
        ensures
            r@ == "Wacom Intuos5 touch S Pad"@,
    {
        "Wacom Intuos5 touch S Pad"
    }

    /// The name under which the pad reports itself when wireless.
    pub fn dev_wl_name(&self) -> (r: &'static str)
        ensures
            r@ == "Wacom Intuos5 touch S (WL) Pad"@,
    {
        "Wacom Intuos5 touch S (WL) Pad"
    }

    /// The last ring position taken as reference.
    pub fn last_position_value(&self) -> (r: Option<i32>)
        ensures
            r == self.last_position(),
    {
        self.prev
    }

    /// Whether `scroll_map` can take this event.
    pub fn scroll_admissible(&self, ev: &InputEvent) -> (r: bool)
        ensures
            r == pad_scroll_admissible(self.last_position(), *ev),
    {
        match self.prev {
            Some(p) => {
                if ev.kind == EV_ABS && ev.value != 0 {
                    let d = ev.value as i64 - p as i64;
                    i32::MIN as i64 <= d && d <= i32::MAX as i64
                } else {
                    true
                }
            },
            None => true,
        }
    }

    /// The action for an express-key event.
    pub fn key_map(&self, ev: &InputEvent) -> (r: PadKeyAction)
        ensures
            r == pad_key_action(*ev),
    {
        if ev.kind == EV_KEY && ev.value == 1 {
            if ev.code == 257 || ev.code == 260 {
                PadKeyAction::Click(PadClick::Left)
            } else if ev.code == 258 || ev.code == 261 {
                PadKeyAction::Click(PadClick::Middle)
            } else if ev.code == 259 || ev.code == 262 {
                PadKeyAction::Click(PadClick::Right)
            } else {
                PadKeyAction::Pause
            }
        } else {
            PadKeyAction::Ignore
        }
    }

    /// Takes a touch-ring event: updates the reference position and says what
    /// to do.
    pub fn scroll_map(&mut self, ev: &InputEvent) -> (r: PadScrollAction)
        requires
            pad_scroll_admissible(old(self).last_position(), *ev),
        ensures
            (r, final(self).last_position()) == pad_scroll_spec(
                old(self).last_position(),
                old(self).ring_size(),
                old(self).jump_limit(),
                *ev,
            ),
            final(self).ring_size() == old(self).ring_size(),
            final(self).jump_limit() == old(self).jump_limit(),
            r matches PadScrollAction::Step(s) ==> 1 <= abs_int(s as int) <= old(self).jump_limit(),
    {
        proof {
            use_type_invariant(&*self);
        }
        if ev.kind != EV_ABS {
            return PadScrollAction::Ignore;
        }
        if ev.value == 0 {
            self.prev = None;
            return PadScrollAction::Release;
        }
        let prev = match self.prev {
            None => {
                self.prev = Some(ev.value);
                return PadScrollAction::Anchor;
            },
            Some(v) => v,
        };
        let diff: i32 = ev.value - prev;
        let raw: i32 = match diff.checked_rem_euclid(self.range) {
            Some(x) => x,
            None => {
                proof {
                    assert(false);
                }
                0
            },
        };
        let mut signed: i32 = if raw > self.range / 2 {
            raw - self.range
        } else {
            raw
        };
        signed = -signed;
        let size: i32 = if signed < 0 {
            -signed
        } else {
            signed
        };
        self.prev = Some(ev.value);
        if size > self.jump_threshold || signed == 0 {
            return PadScrollAction::Anchor;
        }
        PadScrollAction::Step(signed)
    }
}

} // verus!
