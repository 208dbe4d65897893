use vstd::prelude::*;

use crate::event::{InputEvent, EV_REL, EV_SYN, REL_HWHEEL, REL_WHEEL, SYN_REPORT};

verus! {

/// The events of one smooth-scroll report: a vertical wheel event unless `y`
/// is zero, a horizontal wheel event unless `x` is zero, and the closing
/// synchronisation marker.
pub open spec fn smooth_scroll_spec(x: i32, y: i32) -> Seq<InputEvent> {
    let vertical = if y != 0 {
        seq![InputEvent { kind: EV_REL, code: REL_WHEEL, value: y }]
    } else {
        Seq::empty()
    };
    let horizontal = if x != 0 {
        seq![InputEvent { kind: EV_REL, code: REL_HWHEEL, value: x }]
    } else {
        Seq::empty()
    };
    vertical + horizontal + seq![InputEvent { kind: EV_SYN, code: SYN_REPORT, value: 0 }]
}

/// What a smooth-scroll report holds: the vertical wheel event (relative
/// axis 8) comes first and exactly when `y` is not zero, with value `y`; the
/// horizontal wheel event (relative axis 6) follows exactly when `x` is not
/// zero, with value `x`; the report always ends with the synchronisation
/// marker, and holds nothing else.
pub proof fn lemma_smooth_scroll_report(x: i32, y: i32)
    ensures
        ({
            let e = smooth_scroll_spec(x, y);
            let nv: int = if y != 0 {
                1
            } else {
                0
            };
            let nh: int = if x != 0 {
                1
            } else {
                0
            };
            &&& e.len() == nv + nh + 1
            &&& e[e.len() - 1] == InputEvent { kind: 0, code: 0, value: 0 }
            &&& y != 0 ==> e[0] == InputEvent { kind: 2, code: 8, value: y }
            &&& x != 0 ==> e[nv] == InputEvent { kind: 2, code: 6, value: x }
        }),
{
}

/// The events that scroll by `x` columns and `y` lines on a virtual wheel,
/// in the order in which they are to be emitted.
pub fn smooth_scroll(x: i32, y: i32) -> (events: Vec<InputEvent>)
    ensures
        events@ == smooth_scroll_spec(x, y),
{
    let mut events: Vec<InputEvent> = Vec::new();
    if y != 0 {
        events.push(InputEvent::new(EV_REL, REL_WHEEL, y));
    }
    if x != 0 {
        events.push(InputEvent::new(EV_REL, REL_HWHEEL, x));
    }
    events.push(InputEvent::new(EV_SYN, SYN_REPORT, 0));
    proof {
        let s = smooth_scroll_spec(x, y);
        assert(events@ =~= s);
    }
    events
}

} // verus!
