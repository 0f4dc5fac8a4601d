use vstd::prelude::*;
use crate::stats::MinerStats;

verus! {

/// Time between two updates in the reference behaviour: one second.
pub const CADENCE_MS: u64 = 1000;

/// Time the loop waits between two checks of the clock.
pub const POLL_MS: u64 = 100;

/// Hash rate that each update step writes in the reference behaviour.
pub const PLACEHOLDER_RATE: u64 = 42;

/// Hashes that each update step adds in the reference behaviour.
pub const PLACEHOLDER_INCREMENT: u64 = 1000;

/// What the loop asks of the code that runs it.
#[derive(Debug, Clone, Copy, PartialEq, Eq, Structural)]
pub enum Action {
    /// Wait this many milliseconds, then report the next tick.
    Sleep(u64),
    /// Cancellation was seen: leave the loop.
    Stop,
}

/// What the code that runs the loop reports at each wake-up: the clock's
/// reading and whether cancellation was asked for.
#[derive(Debug, Clone, Copy, PartialEq, Eq, Structural)]
pub struct Tick {
    pub now: u64,
    pub cancelled: bool,
}

/// The decisions of the refresh loop: its settings and the time of the last
/// update (the loop's start until the first one).
#[derive(Debug, Clone, Copy, PartialEq, Eq, Structural)]
pub struct RefreshLoop {
    pub cadence: u64,
    pub poll: u64,
    pub rate: u64,
    pub increment: u64,
    pub last_update: u64,
}

impl RefreshLoop {
    /// An update is due at this tick: no cancellation, and at least one
    /// cadence has passed since the last update. A clock reading earlier
    /// than the last update counts as no time passed.
    pub open spec fn is_due(self, t: Tick) -> bool {
        !t.cancelled && t.now >= self.last_update + self.cadence
    }

    /// The loop's state after a tick.
    pub open spec fn after(self, t: Tick) -> RefreshLoop {
        if self.is_due(t) {
            RefreshLoop { last_update: t.now, ..self }
        } else {
            self
        }
    }

    /// The statistics after a tick.
    pub open spec fn stats_after(self, s: MinerStats, t: Tick) -> MinerStats {
        if self.is_due(t) {
            s.updated(self.rate, self.increment)
        } else {
            s
        }
    }

    /// The action that a tick leads to.
    pub open spec fn action(self, t: Tick) -> Action {
        if t.cancelled {
            Action::Stop
        } else {
            Action::Sleep(self.poll)
        }
    }

    /// A loop that starts at `start` with the given settings.
    pub fn new(cadence: u64, poll: u64, rate: u64, increment: u64, start: u64) -> (r: RefreshLoop)
        ensures
            r == (RefreshLoop { cadence, poll, rate, increment, last_update: start }),
    {
        RefreshLoop { cadence, poll, rate, increment, last_update: start }
    }

    /// A loop that starts at `start` with the reference settings: a
    /// one-second cadence, a 100 ms poll, and the placeholder update.
    pub fn reference(start: u64) -> (r: RefreshLoop)
        ensures
            r == (RefreshLoop {
                cadence: CADENCE_MS,
                poll: POLL_MS,
                rate: PLACEHOLDER_RATE,
                increment: PLACEHOLDER_INCREMENT,
                last_update: start,
            }),
    {
        RefreshLoop::new(CADENCE_MS, POLL_MS, PLACEHOLDER_RATE, PLACEHOLDER_INCREMENT, start)
    }

    /// Handles one wake-up: updates `stats` when an update is due, and says
    /// what to do next.
    pub fn tick(&mut self, stats: &mut MinerStats, t: Tick) -> (a: Action)
        ensures
            *final(self) == old(self).after(t),
            *final(stats) == old(self).stats_after(*old(stats), t),
            a == old(self).action(t),
            final(stats).start_time == old(stats).start_time,
            final(stats).total_hashes >= old(stats).total_hashes,
    {
        if t.cancelled {
            return Action::Stop;
        }
        if t.now >= self.last_update && t.now - self.last_update >= self.cadence {
            stats.record_update(self.rate, self.increment);
            self.last_update = t.now;
        }
        Action::Sleep(self.poll)
    }
}

} // verus!
