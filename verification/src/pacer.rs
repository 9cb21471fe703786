//! Frame pacing: sleeps between frames so delivery tracks the
//! timestamps, but never waits longer than one expected frame
//! interval, so a camera clock reset cannot stall the stream.

use vstd::prelude::*;

verus! {

/// The wait before emitting a frame stamped `ts` when the previous
/// emitted frame was stamped `ts_prev`: the timestamp gap, clamped to
/// `expected` and saturated at zero when the clock ran backwards.
pub open spec fn spec_pacer_wait(ts_prev: u64, ts: u64, expected: u64) -> u64 {
    if ts < ts_prev {
        0u64
    } else if ts - ts_prev < expected {
        (ts - ts_prev) as u64
    } else {
        expected
    }
}

/// Pacing state for one stream: the timestamp of the frame emitted
/// last. It starts at `u64::MAX` so the first frame goes out at once,
/// and is pulled down to the frame's timestamp whenever a regression
/// is seen, absorbing camera clock resets.
pub struct Pacer {
    pub ts_prev: u64,
}

impl Pacer {
    /// A fresh pacer; the first frame will not be delayed.
    pub fn new() -> (r: Self)
        ensures
            r.ts_prev == u64::MAX,
    {
        Pacer { ts_prev: u64::MAX }
    }

    /// Decides how long to sleep before emitting a frame stamped
    /// `ts`, and remembers `ts` for the next frame. The wait is
    /// always within `[0, expected]`.
    pub fn step(&mut self, ts: u64, expected: u64) -> (wait: u64)
        ensures
            wait == spec_pacer_wait(old(self).ts_prev, ts, expected),
            0 <= wait <= expected,
            final(self).ts_prev == ts,
    {
        if ts < self.ts_prev {
            self.ts_prev = ts;
        }
        let gap = ts - self.ts_prev;
        let wait = if gap < expected {
            gap
        } else {
            expected
        };
        self.ts_prev = ts;
        wait
    }
}

} // verus!
