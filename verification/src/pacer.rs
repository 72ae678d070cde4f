//! The frame pacer: how long a cycle took, and how long the loop rests
//! after it.

use vstd::prelude::*;

verus! {

/// The rest after each cycle, in milliseconds. It is the same after every
/// cycle, however long the cycle's own work took.
pub const CYCLE_DELAY_MS: u32 = 20;

/// Microseconds in a millisecond.
pub const MICROS_PER_MILLI: u64 = 1000;

/// The time that the rendering runtime's clock is advanced by.
#[derive(Clone, Copy, Debug, PartialEq, Eq, Structural)]
pub struct ClockTick {
    /// The length of the tick in microseconds.
    pub micros: u64,
}

impl ClockTick {
    /// The whole milliseconds in the tick.
    pub open spec fn whole_millis(self) -> int {
        self.micros as int / MICROS_PER_MILLI as int
    }

    /// The whole milliseconds in the tick.
    pub fn millis(&self) -> (ms: u64)
        ensures
            ms == self.whole_millis(),
    {
        self.micros / MICROS_PER_MILLI
    }
}

/// The time from `started` to `now` on a monotonic clock, in its unit: zero
/// where no start was recorded or the clock reads earlier than the start.
pub open spec fn elapsed(started: Option<u64>, now: u64) -> u64 {
    match started {
        Some(s) => if now >= s {
            (now - s) as u64
        } else {
            0
        },
        None => 0,
    }
}

/// Measures each cycle against a monotonic clock that counts microseconds.
#[derive(Clone, Copy, Debug)]
pub struct FramePacer {
    started: Option<u64>,
}

impl FramePacer {
    /// The clock reading at which the running cycle started, if one runs.
    pub closed spec fn started(&self) -> Option<u64> {
        self.started
    }

    /// A pacer with no cycle running.
    pub fn new() -> (p: FramePacer)
        ensures
            p.started() is None,
    {
        FramePacer { started: None }
    }

    /// Records `now` as the start of a cycle.
    pub fn begin(&mut self, now: u64)
        ensures
            final(self).started() == Some(now),
    {
        self.started = Some(now);
    }

    /// Ends the running cycle at `now` and gives the tick that the cycle
    /// took.
    pub fn finish(&mut self, now: u64) -> (tick: ClockTick)
        ensures
            tick.micros == elapsed(old(self).started(), now),
            final(self).started() is None,
    {
        let micros: u64 = match self.started {
            Some(s) => {
                if now >= s {
                    now - s
                } else {
                    0
                }
            },
            None => 0,
        };
        self.started = None;
        ClockTick { micros }
    }

    /// The clock reading at which the running cycle started, if one runs.
    pub fn start_time(&self) -> (s: Option<u64>)
        ensures
            s == self.started(),
    {
        self.started
    }

    /// The rest after a cycle, in milliseconds.
    pub fn delay_ms(&self) -> (ms: u32)
        ensures
            ms == CYCLE_DELAY_MS,
    {
        CYCLE_DELAY_MS
    }
}

/// On a clock that does not run backward the tick is the difference of the
/// two readings, and a later end gives no shorter tick.
pub proof fn lemma_elapsed_monotonic(start: u64, earlier: u64, later: u64)
    requires
        start <= earlier <= later,
    ensures
        elapsed(Some(start), earlier) == earlier - start,
        elapsed(Some(start), earlier) <= elapsed(Some(start), later),
{
}

} // verus!
