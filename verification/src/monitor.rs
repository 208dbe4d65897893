use vstd::prelude::*;

verus! {

/// What a reading of the tablet's presence asks for.
#[derive(Clone, Copy, Debug, PartialEq, Eq, Structural)]
pub enum MonitorAction {
    /// The tablet appeared: stop any former workers, then start new ones.
    Start,
    /// The tablet went away: stop the workers.
    Stop,
    /// Nothing changed.
    Stay,
}

/// The action and the next state for a reading, given whether the tablet
/// was connected at the previous reading.
pub open spec fn monitor_spec(connected: bool, is_connected: bool) -> (MonitorAction, bool) {
    if is_connected && !connected {
        (MonitorAction::Start, true)
    } else if !is_connected && connected {
        (MonitorAction::Stop, false)
    } else {
        (MonitorAction::Stay, connected)
    }
}

/// What a reading does: workers start exactly when the tablet appears (it is
/// read present after being absent) and stop exactly when it goes away; the
/// monitor then holds the reading.
pub proof fn lemma_monitor_edges(connected: bool, is_connected: bool)
    ensures
        (monitor_spec(connected, is_connected).0 == MonitorAction::Start) == (is_connected
            && !connected),
        (monitor_spec(connected, is_connected).0 == MonitorAction::Stop) == (!is_connected
            && connected),
        monitor_spec(connected, is_connected).1 == is_connected,
{
}

/// Watches the tablet's presence across periodic readings.
pub struct Monitor {
    connected: bool,
}

impl Monitor {
    /// Whether the tablet was present at the last reading.
    pub closed spec fn linked(self) -> bool {
        self.connected
    }

    /// A monitor that has seen no tablet yet.
    pub fn new() -> (m: Monitor)
        ensures
            !m.linked(),
    {
        Monitor { connected: false }
    }

    /// Takes a reading of whether the tablet is present.
    pub fn step(&mut self, is_connected: bool) -> (r: MonitorAction)
        ensures
            (r, final(self).linked()) == monitor_spec(old(self).linked(), is_connected),
    {
        if is_connected && !self.connected {
            self.connected = true;
            MonitorAction::Start
        } else if !is_connected && self.connected {
            self.connected = false;
            MonitorAction::Stop
        } else {
            MonitorAction::Stay
        }
    }
}

/// Whether the tablet counts as connected after the first `n` readings of a
/// monitor that started with none.
pub open spec fn connected_after(readings: Seq<bool>, n: int) -> bool {
    if n <= 0 {
        false
    } else {
        readings[n - 1]
    }
}

/// The action that the reading at index `i` gives.
pub open spec fn action_at(readings: Seq<bool>, i: int) -> MonitorAction {
    monitor_spec(connected_after(readings, i), readings[i]).0
}

/// The state after `n` readings is the last reading.
pub proof fn lemma_state_is_last_reading(readings: Seq<bool>, n: int)
    requires
        0 < n <= readings.len(),
    ensures
        monitor_spec(connected_after(readings, n - 1), readings[n - 1]).1 == connected_after(
            readings,
            n,
        ),
{
}

/// Between two starts there is always a stop: workers are never started twice
/// without the former ones having been stopped.
pub proof fn lemma_stop_between_starts(readings: Seq<bool>, i: int, j: int)
    requires
        0 <= i < j < readings.len(),
        action_at(readings, i) == MonitorAction::Start,
        action_at(readings, j) == MonitorAction::Start,
    ensures
        exists|k: int| i < k < j && action_at(readings, k) == MonitorAction::Stop,
    decreases j - i,
{
    // The reading at `i` is true, the one just before `j` is false.
    assert(readings[i]);
    assert(!connected_after(readings, j));
    if readings[i + 1] {
        lemma_stop_between_starts_from(readings, i + 1, j);
    } else {
        assert(action_at(readings, i + 1) == MonitorAction::Stop);
    }
}

/// Between a true reading at `m` and a start at `j` there is a stop.
proof fn lemma_stop_between_starts_from(readings: Seq<bool>, m: int, j: int)
    requires
        0 <= m < j < readings.len(),
        readings[m],
        action_at(readings, j) == MonitorAction::Start,
    ensures
        exists|k: int| m < k < j && action_at(readings, k) == MonitorAction::Stop,
    decreases j - m,
{
    assert(!connected_after(readings, j));
    if m + 1 == j {
        assert(connected_after(readings, j) == readings[m]);
    } else if readings[m + 1] {
        lemma_stop_between_starts_from(readings, m + 1, j);
    } else {
        assert(action_at(readings, m + 1) == MonitorAction::Stop);
    }
}

} // verus!
