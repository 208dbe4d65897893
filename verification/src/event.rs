use vstd::prelude::*;

verus! {

/// Event type of a synchronisation marker.
pub const EV_SYN: u16 = 0;
/// Event type of a key or button change.
pub const EV_KEY: u16 = 1;
/// Event type of a relative axis movement.
pub const EV_REL: u16 = 2;
/// Event type of an absolute axis position.
pub const EV_ABS: u16 = 3;

/// Code of the synchronisation marker that closes a report.
pub const SYN_REPORT: u16 = 0;
/// Relative horizontal pointer axis.
pub const REL_X: u16 = 0;
/// Relative vertical pointer axis.
pub const REL_Y: u16 = 1;
/// Horizontal scroll wheel.
pub const REL_HWHEEL: u16 = 6;
/// Vertical scroll wheel.
pub const REL_WHEEL: u16 = 8;
/// Absolute horizontal axis.
pub const ABS_X: u16 = 0;
/// Absolute vertical axis.
pub const ABS_Y: u16 = 1;
/// Left mouse button.
pub const BTN_LEFT: u16 = 0x110;
/// Right mouse button.
pub const BTN_RIGHT: u16 = 0x111;
/// First barrel button of the pen.
pub const BTN_STYLUS: u16 = 0x14b;
/// Second barrel button of the pen.
pub const BTN_STYLUS2: u16 = 0x14c;
/// Three fingers resting on the touch surface.
pub const BTN_TOOL_TRIPLETAP: u16 = 0x14e;

/// One input event as the kernel reports it: its type, its code and its value.
#[derive(Clone, Copy, Debug, PartialEq, Eq, Structural)]
pub struct InputEvent {
    pub kind: u16,
    pub code: u16,
    pub value: i32,
}

impl InputEvent {
    /// Builds an event from its type, code and value.
    pub fn new(kind: u16, code: u16, value: i32) -> (ev: InputEvent)
        ensures
            ev == (InputEvent { kind, code, value }),
    {
        InputEvent { kind, code, value }
    }
}

/// The absolute value of an integer.
pub open spec fn abs_int(x: int) -> int {
    if x < 0 {
        -x
    } else {
        x
    }
}

} // verus!
