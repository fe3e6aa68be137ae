//! Liveness of one connection: when the peer was last heard, and what a
//! scheduled check decides.

use vstd::prelude::*;

verus! {

/// Time units between two scheduled checks.
pub const HEARTBEAT_INTERVAL: u64 = 5;

/// Silence longer than this many time units closes the connection.
pub const CLIENT_TIMEOUT: u64 = 10;

/// What a scheduled check decides.
#[derive(Clone, Copy, Debug, PartialEq, Eq, Structural)]
pub enum HeartbeatAction {
    /// The peer is within the timeout: probe it.
    Ping,
    /// The peer has been silent for too long: close the connection now.
    Close,
    /// The connection was closed before: nothing is left to do.
    Stopped,
}

/// Model of a monitor.
pub struct MonitorView {
    pub last_seen: nat,
    pub closed: bool,
}

impl MonitorView {
    /// Whether the peer has been silent for longer than the timeout at `now`.
    pub open spec fn timed_out(self, now: nat) -> bool {
        now > self.last_seen + CLIENT_TIMEOUT
    }

    /// What a check at `now` decides.
    pub open spec fn check_action(self, now: nat) -> HeartbeatAction {
        if self.closed {
            HeartbeatAction::Stopped
        } else if self.timed_out(now) {
            HeartbeatAction::Close
        } else {
            HeartbeatAction::Ping
        }
    }

    /// The monitor after a check at `now`.
    pub open spec fn checked(self, now: nat) -> MonitorView {
        MonitorView { closed: self.closed || self.timed_out(now), ..self }
    }

    /// How many of the checks at `times`, made in that order with no
    /// activity between them, close the connection.
    pub open spec fn closes(self, times: Seq<nat>) -> nat
        decreases times.len(),
    {
        if times.len() == 0 {
            0
        } else {
            let here: nat = if self.check_action(times[0]) == HeartbeatAction::Close {
                1
            } else {
                0
            };
            here + self.checked(times[0]).closes(times.drop_first())
        }
    }
}

/// The liveness monitor of one connection.
#[derive(Clone, Copy, Debug, PartialEq, Eq)]
pub struct HeartbeatMonitor {
    last_seen: u64,
    closed: bool,
}

impl View for HeartbeatMonitor {
    type V = MonitorView;

    closed spec fn view(&self) -> MonitorView {
        MonitorView { last_seen: self.last_seen as nat, closed: self.closed }
    }
}

impl HeartbeatMonitor {
    /// A monitor for a connection established at `now`.
    pub fn new(now: u64) -> (monitor: HeartbeatMonitor)
        ensures
            monitor@ == (MonitorView { last_seen: now as nat, closed: false }),
    {
        HeartbeatMonitor { last_seen: now, closed: false }
    }

    pub fn last_seen(&self) -> (t: u64)
        ensures
            t == self@.last_seen,
    {
        self.last_seen
    }

    pub fn is_closed(&self) -> (b: bool)
        ensures
            b == self@.closed,
    {
        self.closed
    }

    /// Records inbound activity at `now`.
    pub fn observe(&mut self, now: u64)
        ensures
            final(self)@ == (MonitorView { last_seen: now as nat, ..old(self)@ }),
    {
        self.last_seen = now;
    }

    /// Marks the connection closed, so that later checks do nothing.
    pub fn shutdown(&mut self)
        ensures
            final(self)@ == (MonitorView { closed: true, ..old(self)@ }),
    {
        self.closed = true;
    }

    /// A scheduled check at `now`.
    pub fn check(&mut self, now: u64) -> (action: HeartbeatAction)
        ensures
            action == old(self)@.check_action(now as nat),
            final(self)@ == old(self)@.checked(now as nat),
    {
        if self.closed {
            HeartbeatAction::Stopped
        } else if now > self.last_seen && now - self.last_seen > CLIENT_TIMEOUT {
            self.closed = true;
            HeartbeatAction::Close
        } else {
            HeartbeatAction::Ping
        }
    }
}

/// Once a monitor is closed, no check closes the connection again.
pub proof fn lemma_closed_stays_silent(monitor: MonitorView, times: Seq<nat>)
    requires
        monitor.closed,
    ensures
        monitor.closes(times) == 0,
    decreases times.len(),
{
    if times.len() > 0 {
        lemma_closed_stays_silent(monitor.checked(times[0]), times.drop_first());
    }
}

/// Under repeated checks with no activity in between, a connection is closed
/// at most once, and exactly once where it was open and some check finds the
/// peer silent for longer than the timeout.
pub proof fn lemma_closed_exactly_once(monitor: MonitorView, times: Seq<nat>)
    ensures
        monitor.closes(times) <= 1,
        !monitor.closed && (exists|i: int| 0 <= i < times.len() && monitor.timed_out(#[trigger] times[i]))
            ==> monitor.closes(times) == 1,
        monitor.closed || (forall|i: int| 0 <= i < times.len() ==> !monitor.timed_out(#[trigger] times[i]))
            ==> monitor.closes(times) == 0,
    decreases times.len(),
{
    if times.len() > 0 {
        let next = monitor.checked(times[0]);
        let rest = times.drop_first();
        lemma_closed_exactly_once(next, rest);
        if next.closed {
            lemma_closed_stays_silent(next, rest);
        } else {
            assert forall|i: int| 0 <= i < times.len() && monitor.timed_out(#[trigger] times[i]) implies i
                > 0 && next.timed_out(rest[i - 1]) by {}
            assert forall|i: int| 0 <= i < rest.len() && next.timed_out(#[trigger] rest[i]) implies monitor.timed_out(
                times[i + 1],
            ) by {}
        }
    }
}

} // verus!
