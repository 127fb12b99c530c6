//! Fixed-timestep accumulator: wall time arrives in frames of arbitrary
//! length, and the simulation advances by whole ticks of `TICK_MS`, carrying
//! the remainder to the next frame.

use vstd::prelude::*;

use crate::config::TICK_MS;

verus! {

/// Largest frame the accumulator accepts (1000 seconds).
pub const MAX_FRAME_MS: i64 = 1_000_000;

/// The accumulator that decouples the fixed simulation rate from the
/// variable render rate.
pub struct FrameClock {
    acc_ms: i64,
}

impl FrameClock {
    /// Milliseconds carried over from previous frames, always less than one
    /// tick.
    pub closed spec fn acc(&self) -> int {
        self.acc_ms as int
    }

    pub open spec fn wf(&self) -> bool {
        0 <= self.acc() < TICK_MS
    }

    pub fn new() -> (c: FrameClock)
        ensures
            c.wf(),
            c.acc() == 0,
    {
        FrameClock { acc_ms: 0 }
    }

    /// Accounts one rendered frame of `frame_ms` wall milliseconds and
    /// returns how many whole fixed ticks the simulation must advance; the
    /// remainder stays in the accumulator, so no time is lost or invented.
    pub fn add_frame(&mut self, frame_ms: i64) -> (ticks: i64)
        requires
            old(self).wf(),
            0 <= frame_ms <= MAX_FRAME_MS,
        ensures
            final(self).wf(),
            ticks == (old(self).acc() + frame_ms) / TICK_MS as int,
            final(self).acc() == (old(self).acc() + frame_ms) % TICK_MS as int,
            ticks * TICK_MS + final(self).acc() == old(self).acc() + frame_ms,
    {
        let total = self.acc_ms + frame_ms;
        let ticks = total / TICK_MS;
        self.acc_ms = total % TICK_MS;
        proof {
            vstd::arithmetic::div_mod::lemma_fundamental_div_mod(total as int, TICK_MS as int);
        }
        ticks
    }
}

} // verus!
