//! The movement timer: accumulates elapsed milliseconds and fires one move
//! event each time the fixed interval is crossed.

use vstd::prelude::*;
use vstd::arithmetic::div_mod::lemma_small_mod;

verus! {

/// Milliseconds between two snake moves.
pub const MOVE_INTERVAL_MS: u32 = 75;

/// Whether adding `elapsed` milliseconds to an accumulator of `acc` crosses
/// the movement interval.
pub open spec fn spec_timer_fires(acc: int, elapsed: int) -> bool {
    acc + elapsed >= MOVE_INTERVAL_MS
}

/// The accumulator after adding `elapsed` milliseconds: the remainder past
/// the last full interval.
pub open spec fn spec_timer_after(acc: int, elapsed: int) -> int {
    (acc + elapsed) % (MOVE_INTERVAL_MS as int)
}

/// Accumulates elapsed wall-clock time, handed in by the caller each frame,
/// and fires each time the fixed movement interval is crossed.
pub struct MoveTimer {
    acc_ms: u32,
}

impl View for MoveTimer {
    type V = int;

    closed spec fn view(&self) -> int {
        self.acc_ms as int
    }
}

impl MoveTimer {
    /// Well-formedness: the accumulator always holds less than one interval.
    pub open spec fn wf(self) -> bool {
        0 <= self@ < MOVE_INTERVAL_MS
    }

    /// A fresh timer with an empty accumulator.
    pub fn new() -> (t: MoveTimer)
        ensures
            t@ == 0,
            t.wf(),
    {
        MoveTimer { acc_ms: 0 }
    }

    /// Adds `elapsed_ms` to the accumulator; reports whether the interval
    /// was crossed, and keeps only the remainder past it when so.
    pub fn advance(&mut self, elapsed_ms: u32) -> (fired: bool)
        requires
            old(self).wf(),
        ensures
            final(self).wf(),
            fired == spec_timer_fires(old(self)@, elapsed_ms as int),
            final(self)@ == spec_timer_after(old(self)@, elapsed_ms as int),
    {
        let total: u64 = self.acc_ms as u64 + elapsed_ms as u64;
        if total >= MOVE_INTERVAL_MS as u64 {
            self.acc_ms = (total % (MOVE_INTERVAL_MS as u64)) as u32;
            true
        } else {
            self.acc_ms = total as u32;
            proof {
                lemma_small_mod(total as nat, MOVE_INTERVAL_MS as nat);
            }
            false
        }
    }

    /// Empties the accumulator.
    pub fn reset(&mut self)
        ensures
            final(self)@ == 0,
            final(self).wf(),
    {
        self.acc_ms = 0;
    }
}

} // verus!
