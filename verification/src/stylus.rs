use vstd::prelude::*;

use crate::event::{InputEvent, BTN_LEFT, BTN_RIGHT, BTN_STYLUS, BTN_STYLUS2, EV_KEY};

verus! {

/// The button event that a stylus button event stands for: the second barrel
/// button acts as the right mouse button and the first as the left one, for
/// presses (value 1) and releases (value 0) alike.
pub open spec fn stylus_key_spec(ev: InputEvent) -> Option<InputEvent> {
    if ev.kind == EV_KEY && (ev.value == 1 || ev.value == 0) {
        if ev.code == BTN_STYLUS2 {
            Some(InputEvent { kind: EV_KEY, code: BTN_RIGHT, value: ev.value })
        } else if ev.code == BTN_STYLUS {
            Some(InputEvent { kind: EV_KEY, code: BTN_LEFT, value: ev.value })
        } else {
            None
        }
    } else {
        None
    }
}

/// A barrel button's press and release act on the same mouse button, so no
/// mouse button is left held.
pub proof fn lemma_press_release_same_button(code: u16)
    ensures
        ({
            let press = stylus_key_spec(InputEvent { kind: EV_KEY, code, value: 1 });
            let release = stylus_key_spec(InputEvent { kind: EV_KEY, code, value: 0 });
            &&& press is Some <==> release is Some
            &&& press is Some ==> press->0.code == release->0.code && press->0.value == 1
                && release->0.value == 0
        }),
{
}

/// What the stylus relay does: a press or release (value 1 or 0) of the
/// second barrel button (332) becomes the same change of the right mouse
/// button (0x111), one of the first barrel button (331) the same change of the
/// left mouse button (0x110); nothing else is relayed.
pub proof fn lemma_stylus_relay(ev: InputEvent)
    ensures
        (ev.kind != EV_KEY || (ev.code != 331 && ev.code != 332) || (ev.value != 0 && ev.value
            != 1)) ==> stylus_key_spec(ev) is None,
        (ev.kind == EV_KEY && ev.code == 332 && (ev.value == 0 || ev.value == 1))
            ==> stylus_key_spec(ev) == Some(InputEvent { kind: 1, code: 0x111, value: ev.value }),
        (ev.kind == EV_KEY && ev.code == 331 && (ev.value == 0 || ev.value == 1))
            ==> stylus_key_spec(ev) == Some(InputEvent { kind: 1, code: 0x110, value: ev.value }),
{
}

/// The stylus barrel buttons, relayed as mouse buttons.
pub struct Stylus {}

impl Stylus {
    /// A stylus relay.
    pub fn new() -> (s: Stylus) {
        Stylus {  }
    }

    /// The name under which the pen reports itself.
    pub fn dev_name(&self) -> (r: &'static str)
        ensures
            r@ == "Wacom Intuos5 touch S Pen"@,
    {
        "Wacom Intuos5 touch S Pen"
    }

    /// The mouse button event to emit for a stylus event, if any.
    pub fn key_map(&self, ev: &InputEvent) -> (r: Option<InputEvent>)
        ensures
            r == stylus_key_spec(*ev),
    {
        if ev.kind == EV_KEY {
            if ev.code == BTN_STYLUS2 {
                if ev.value == 1 || ev.value == 0 {
                    return Some(InputEvent::new(EV_KEY, BTN_RIGHT, ev.value));
                }
            } else if ev.code == BTN_STYLUS {
                if ev.value == 1 || ev.value == 0 {
                    return Some(InputEvent::new(EV_KEY, BTN_LEFT, ev.value));
                }
            }
        }
        None
    }
}

} // verus!
