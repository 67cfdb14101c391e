//! Countdown timers in integer milliseconds, ticked exactly once per frame.
//!
//! A `Once` timer runs to its duration and stays finished until reset; a
//! `Repeating` timer wraps its elapsed time and reports each completion
//! through `just_finished`.

use vstd::prelude::*;

verus! {

#[derive(Clone, Copy, PartialEq, Eq, Structural, Debug)]
pub enum TimerMode {
    Once,
    Repeating,
}

#[derive(Clone, Copy, Debug)]
pub struct Timer {
    duration_ms: u64,
    elapsed_ms: u64,
    mode: TimerMode,
    just_finished_now: bool,
}

impl Timer {
    /// A timer is well formed when its duration is positive and a repeating
    /// timer's elapsed time has been wrapped below the duration.
    pub closed spec fn wf(self) -> bool {
        self.duration_ms > 0 && (self.mode == TimerMode::Repeating ==> self.elapsed_ms
            < self.duration_ms) && (self.mode == TimerMode::Once ==> self.elapsed_ms
            <= self.duration_ms)
    }

    pub closed spec fn spec_duration(self) -> u64 {
        self.duration_ms
    }

    pub closed spec fn spec_elapsed(self) -> u64 {
        self.elapsed_ms
    }

    pub closed spec fn spec_mode(self) -> TimerMode {
        self.mode
    }

    /// Whether the timer completed during the most recent tick.
    pub closed spec fn spec_just_finished(self) -> bool {
        self.just_finished_now
    }

    /// A once timer is finished from the tick that completes it until reset;
    /// a repeating timer reports only the tick in which it wrapped.
    pub closed spec fn spec_finished(self) -> bool {
        match self.mode {
            TimerMode::Once => self.elapsed_ms >= self.duration_ms,
            TimerMode::Repeating => self.just_finished_now,
        }
    }

    pub fn from_ms(duration_ms: u64, mode: TimerMode) -> (t: Timer)
        requires
            duration_ms > 0,
        ensures
            t.wf(),
            t.spec_duration() == duration_ms,
            t.spec_elapsed() == 0,
            t.spec_mode() == mode,
            !t.spec_just_finished(),
            !t.spec_finished(),
    {
        Timer { duration_ms, elapsed_ms: 0, mode, just_finished_now: false }
    }

    pub fn duration_ms(&self) -> (d: u64)
        ensures
            d == self.spec_duration(),
    {
        self.duration_ms
    }

    pub fn elapsed_ms(&self) -> (e: u64)
        ensures
            e == self.spec_elapsed(),
    {
        self.elapsed_ms
    }

    /// Advance the timer by a frame delta. A once timer that was already
    /// finished stays where it is; otherwise elapsed time accumulates, capped
    /// at the duration for a once timer and wrapped modulo the duration for a
    /// repeating one. `just_finished` reports whether this tick completed the
    /// timer.
    pub fn tick(&mut self, delta_ms: u64)
        requires
            old(self).wf(),
            old(self).spec_duration() + delta_ms <= u64::MAX,
        ensures
            final(self).wf(),
            final(self).spec_duration() == old(self).spec_duration(),
            final(self).spec_mode() == old(self).spec_mode(),
            old(self).spec_mode() == TimerMode::Once ==> {
                &&& final(self).spec_elapsed() == (if old(self).spec_elapsed() + delta_ms
                    >= old(self).spec_duration() {
                    old(self).spec_duration() as int
                } else {
                    old(self).spec_elapsed() + delta_ms
                })
                &&& final(self).spec_just_finished() == (old(self).spec_elapsed()
                    < old(self).spec_duration() && old(self).spec_elapsed() + delta_ms
                    >= old(self).spec_duration())
                &&& final(self).spec_finished() == (old(self).spec_elapsed() + delta_ms
                    >= old(self).spec_duration())
            },
            old(self).spec_mode() == TimerMode::Repeating ==> {
                &&& final(self).spec_elapsed() == (old(self).spec_elapsed() + delta_ms) % (
                old(self).spec_duration() as int)
                &&& final(self).spec_just_finished() == (old(self).spec_elapsed() + delta_ms
                    >= old(self).spec_duration())
                &&& final(self).spec_finished() == final(self).spec_just_finished()
            },
    {
        match self.mode {
            TimerMode::Once => {
                if self.elapsed_ms >= self.duration_ms {
                    self.just_finished_now = false;
                } else {
                    let total: u64 = self.elapsed_ms + delta_ms;
                    if total >= self.duration_ms {
                        self.elapsed_ms = self.duration_ms;
                        self.just_finished_now = true;
                    } else {
                        self.elapsed_ms = total;
                        self.just_finished_now = false;
                    }
                }
            },
            TimerMode::Repeating => {
                let total: u64 = self.elapsed_ms + delta_ms;
                self.just_finished_now = total >= self.duration_ms;
                self.elapsed_ms = total % self.duration_ms;
            },
        }
    }

    pub fn finished(&self) -> (f: bool)
        ensures
            f == self.spec_finished(),
    {
        match self.mode {
            TimerMode::Once => self.elapsed_ms >= self.duration_ms,
            TimerMode::Repeating => self.just_finished_now,
        }
    }

    pub fn just_finished(&self) -> (f: bool)
        ensures
            f == self.spec_just_finished(),
    {
        self.just_finished_now
    }

    /// Start over from zero elapsed time.
    pub fn reset(&mut self)
        requires
            old(self).wf(),
        ensures
            final(self).wf(),
            final(self).spec_duration() == old(self).spec_duration(),
            final(self).spec_mode() == old(self).spec_mode(),
            final(self).spec_elapsed() == 0,
            !final(self).spec_just_finished(),
            !final(self).spec_finished(),
    {
        self.elapsed_ms = 0;
        self.just_finished_now = false;
    }

    /// Change the duration. Elapsed time is clamped (once) or wrapped
    /// (repeating) so the timer stays well formed.
    pub fn set_duration_ms(&mut self, duration_ms: u64)
        requires
            old(self).wf(),
            duration_ms > 0,
        ensures
            final(self).wf(),
            final(self).spec_duration() == duration_ms,
            final(self).spec_mode() == old(self).spec_mode(),
            final(self).spec_just_finished() == old(self).spec_just_finished(),
            final(self).spec_elapsed() == (match old(self).spec_mode() {
                TimerMode::Once => if old(self).spec_elapsed() >= duration_ms {
                    duration_ms as int
                } else {
                    old(self).spec_elapsed() as int
                },
                TimerMode::Repeating => old(self).spec_elapsed() as int % duration_ms as int,
            }),
    {
        self.duration_ms = duration_ms;
        match self.mode {
            TimerMode::Once => {
                if self.elapsed_ms >= duration_ms {
                    self.elapsed_ms = duration_ms;
                }
            },
            TimerMode::Repeating => {
                self.elapsed_ms = self.elapsed_ms % duration_ms;
            },
        }
    }
}

/// A well-formed timer's elapsed time never exceeds its duration.
pub proof fn lemma_wf_elapsed_bound(t: Timer)
    ensures
        t.wf() ==> t.spec_elapsed() <= t.spec_duration(),
{
}

} // verus!
