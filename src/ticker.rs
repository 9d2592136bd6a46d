use vstd::prelude::*;

use crate::session::sat_sub;

verus! {

/// Paces the polling loop: each tick waits for input at most what remains of
/// the tick's budget.
///
/// Times are milliseconds on the caller's monotonic clock.
pub struct EventHandler {
    /// Length of one tick.
    pub tick_rate: u64,
    /// Clock reading at which the current tick began.
    pub last_tick: u64,
}

impl EventHandler {
    /// A pacer with ticks of `tick_rate`, whose first tick begins at `now`.
    pub fn new(tick_rate: u64, now: u64) -> (r: EventHandler)
        ensures
            r.tick_rate == tick_rate,
            r.last_tick == now,
    {
        EventHandler { tick_rate, last_tick: now }
    }

    /// Marks the beginning of a tick at `now`.
    pub fn begin_tick(&mut self, now: u64)
        ensures
            final(self).tick_rate == old(self).tick_rate,
            final(self).last_tick == now,
    {
        self.last_tick = now;
    }

    /// How long the input poll may wait at `now`: the tick's length less the
    /// time spent since the tick began, and never below zero.
    pub fn poll_timeout(&self, now: u64) -> (r: u64)
        ensures
            r == sat_sub(self.tick_rate, sat_sub(now, self.last_tick)),
            r <= self.tick_rate,
    {
        let spent = now.saturating_sub(self.last_tick);
        self.tick_rate.saturating_sub(spent)
    }
}

} // verus!
