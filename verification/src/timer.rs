//! Frame-delta-driven countdown and repeat timers.
//!
//! Timers run on whole milliseconds.  A once timer stops at its
//! duration and stays finished; a repeating timer reports completion on
//! every tick in which it wraps, keeping the remainder as its new
//! elapsed time.

use vstd::prelude::*;

verus! {

/// Longest duration a timer may be built with, in milliseconds.
pub const MAX_DURATION_MS: u64 = 1_000_000_000;

#[derive(Clone, Copy, PartialEq, Eq, Structural, Debug)]
pub enum TimerMode {
    Once,
    Repeating,
}

/// A countdown driven by frame deltas.
#[derive(Clone, Copy, PartialEq, Eq, Structural, Debug)]
pub struct Timer {
    pub mode: TimerMode,
    pub duration_ms: u64,
    pub elapsed_ms: u64,
    /// Whether the timer reached its duration: persistently for a once
    /// timer, on the tick of each wrap for a repeating one.
    pub finished: bool,
    /// A paused timer ignores ticks.
    pub paused: bool,
}

impl Timer {
    pub open spec fn wf(self) -> bool {
        &&& 1 <= self.duration_ms <= MAX_DURATION_MS
        &&& match self.mode {
            TimerMode::Once => {
                &&& self.elapsed_ms <= self.duration_ms
                &&& self.finished == (self.elapsed_ms == self.duration_ms)
            },
            TimerMode::Repeating => self.elapsed_ms < self.duration_ms,
        }
    }

    pub fn new(duration_ms: u64, mode: TimerMode) -> (t: Timer)
        requires
            1 <= duration_ms <= MAX_DURATION_MS,
        ensures
            t.wf(),
            t.mode == mode,
            t.duration_ms == duration_ms,
            t.elapsed_ms == 0,
            !t.finished,
            !t.paused,
    {
        Timer { mode, duration_ms, elapsed_ms: 0, finished: false, paused: false }
    }

    /// The timer after one tick of `delta_ms`: a paused timer is
    /// untouched; a once timer stops at its duration; a repeating
    /// timer wraps, keeping the remainder.
    pub open spec fn ticked(self, delta_ms: int) -> Timer {
        if self.paused {
            self
        } else {
            match self.mode {
                TimerMode::Once => Timer {
                    elapsed_ms: if self.elapsed_ms + delta_ms <= self.duration_ms {
                        (self.elapsed_ms + delta_ms) as u64
                    } else {
                        self.duration_ms
                    },
                    finished: self.elapsed_ms + delta_ms >= self.duration_ms,
                    ..self
                },
                TimerMode::Repeating => Timer {
                    elapsed_ms: ((self.elapsed_ms + delta_ms) % (self.duration_ms as int)) as u64,
                    finished: self.elapsed_ms + delta_ms >= self.duration_ms,
                    ..self
                },
            }
        }
    }

    /// Advances the timer by `delta_ms`, unless it is paused.
    pub fn tick(&mut self, delta_ms: u64)
        requires
            old(self).wf(),
            delta_ms <= crate::geom::MAX_TICK_MS,
        ensures
            final(self).wf(),
            *final(self) == old(self).ticked(delta_ms as int),
    {
        if self.paused {
            return ;
        }
        let total: u64 = self.elapsed_ms + delta_ms;
        match self.mode {
            TimerMode::Once => {
                if total >= self.duration_ms {
                    self.elapsed_ms = self.duration_ms;
                    self.finished = true;
                } else {
                    self.elapsed_ms = total;
                    self.finished = false;
                }
            },
            TimerMode::Repeating => {
                self.elapsed_ms = total % self.duration_ms;
                self.finished = total >= self.duration_ms;
            },
        }
    }

    /// Whether the timer has completed (see the `finished` field).
    pub fn is_finished(&self) -> (b: bool)
        ensures
            b == self.finished,
    {
        self.finished
    }

    /// Starts the countdown over.
    pub fn reset(&mut self)
        requires
            old(self).wf(),
        ensures
            final(self).wf(),
            *final(self) == (Timer {
                elapsed_ms: 0,
                finished: false,
                ..*old(self)
            }),
    {
        self.elapsed_ms = 0;
        self.finished = false;
    }

    /// Stops the timer; later ticks leave it unchanged.
    pub fn pause(&mut self)
        requires
            old(self).wf(),
        ensures
            final(self).wf(),
            *final(self) == (Timer { paused: true, ..*old(self) }),
    {
        self.paused = true;
    }

    /// Milliseconds left until the next completion.
    pub fn remaining_ms(&self) -> (r: u64)
        requires
            self.wf(),
        ensures
            r == self.duration_ms - self.elapsed_ms,
    {
        self.duration_ms - self.elapsed_ms
    }
}

} // verus!
