//! Tick-driven timers: a one-shot countdown for ephemeral effects and a
//! repeating timer that paces the scheduler's spawn checks.

use vstd::prelude::*;

use crate::constants::MAX_TIME_MICROS;

verus! {

/// Remaining time of a countdown after one tick of the given elapsed
/// time: decremented, saturating at zero.
pub open spec fn spec_countdown_after(remaining: int, delta: int) -> int {
    if remaining <= delta {
        0
    } else {
        remaining - delta
    }
}

/// One-shot countdown, decremented by the elapsed time of each tick and
/// exhausted once it reaches zero.  Drives self-expiring effects such as
/// feedback text, the metronome flash and the press animation.
#[derive(Clone, Copy, Debug, PartialEq, Eq, Structural)]
pub struct CountdownTimer {
    /// Time left before the timer expires, in microseconds.
    pub remaining_micros: i64,
}

impl CountdownTimer {
    /// The remaining time never goes below zero.
    pub open spec fn wf(self) -> bool {
        0 <= self.remaining_micros
    }

    /// A fresh countdown with the given lifetime.
    pub fn new(lifetime_micros: i64) -> (t: Self)
        requires
            0 <= lifetime_micros,
        ensures
            t.remaining_micros == lifetime_micros,
            t.wf(),
    {
        CountdownTimer { remaining_micros: lifetime_micros }
    }

    /// Advance the countdown by one tick's elapsed time.  Returns whether
    /// the countdown ran out during this very tick.
    pub fn tick(&mut self, delta_micros: i64) -> (just_finished: bool)
        requires
            old(self).wf(),
            0 <= delta_micros,
        ensures
            final(self).wf(),
            final(self).remaining_micros == spec_countdown_after(
                old(self).remaining_micros as int,
                delta_micros as int,
            ),
            just_finished == (0 < old(self).remaining_micros
                && old(self).remaining_micros <= delta_micros),
    {
        if self.remaining_micros <= delta_micros {
            let was_running = self.remaining_micros > 0;
            self.remaining_micros = 0;
            was_running
        } else {
            self.remaining_micros = self.remaining_micros - delta_micros;
            false
        }
    }

    /// Whether the countdown has run out.
    pub fn finished(&self) -> (b: bool)
        ensures
            b == (self.remaining_micros == 0),
    {
        self.remaining_micros == 0
    }
}

/// Repeating timer: accumulates the elapsed time of each tick and fires
/// whenever a full period has passed, keeping the leftover for the next
/// period.
#[derive(Clone, Copy, Debug, PartialEq, Eq, Structural)]
pub struct RepeatingTimer {
    /// Length of one period, in microseconds.
    pub period_micros: i64,
    /// Time accumulated into the current period, in microseconds.
    pub elapsed_micros: i64,
}

impl RepeatingTimer {
    /// The period is positive, bounded by the clock limit, and the
    /// accumulated time stays within it.
    pub open spec fn wf(self) -> bool {
        &&& 0 < self.period_micros <= MAX_TIME_MICROS
        &&& 0 <= self.elapsed_micros < self.period_micros
    }

    /// A fresh repeating timer with the given period.
    pub fn new(period_micros: i64) -> (t: Self)
        requires
            0 < period_micros <= MAX_TIME_MICROS,
        ensures
            t.period_micros == period_micros,
            t.elapsed_micros == 0,
            t.wf(),
    {
        RepeatingTimer { period_micros, elapsed_micros: 0 }
    }

    /// Advance the timer by one tick's elapsed time.  Returns whether at
    /// least one full period was completed during this tick.
    pub fn tick(&mut self, delta_micros: i64) -> (fired: bool)
        requires
            old(self).wf(),
            0 <= delta_micros <= MAX_TIME_MICROS,
        ensures
            final(self).wf(),
            final(self).period_micros == old(self).period_micros,
            fired == (old(self).elapsed_micros + delta_micros >= old(self).period_micros),
            final(self).elapsed_micros == (old(self).elapsed_micros + delta_micros) % (old(
                self,
            ).period_micros as int),
    {
        let total = self.elapsed_micros + delta_micros;
        if total >= self.period_micros {
            self.elapsed_micros = total % self.period_micros;
            true
        } else {
            proof {
                vstd::arithmetic::div_mod::lemma_small_mod(
                    total as nat,
                    self.period_micros as nat,
                );
            }
            self.elapsed_micros = total;
            false
        }
    }
}

} // verus!
