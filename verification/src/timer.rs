//! Countdown timers, kept as plain numbers and advanced by the game engine's
//! own timer.

use vstd::prelude::*;

verus! {

/// Whether a timer stops at its first expiry or starts over.
#[derive(Clone, Copy, Debug, PartialEq, Eq, Structural)]
pub enum TimerMode {
    /// Runs once; stays finished afterwards.
    Once,
    /// Starts over on expiry and keeps what it overshot by.
    Repeating,
}

/// A countdown over nanoseconds.
#[derive(Clone, Copy, Debug, PartialEq, Eq, Structural)]
pub struct Timer {
    /// Length of one run.
    pub duration_ns: u64,
    /// Time run so far.
    pub elapsed_ns: u64,
    pub mode: TimerMode,
    /// Set by the tick that reached the duration.
    pub finished: bool,
    /// How often the last tick reached the duration.
    pub times_finished_this_tick: u32,
}

/// What one tick of a running timer leaves behind.
#[derive(Clone, Copy, Debug, PartialEq, Eq, Structural)]
pub struct Ticked {
    pub elapsed_ns: u64,
    pub finished: bool,
    pub times_finished: u32,
}

/// Elapsed time after a timer that has not finished is ticked by `delta`.
pub open spec fn elapsed_after(duration: nat, elapsed: nat, repeating: bool, delta: nat) -> nat {
    let total = elapsed + delta;
    if total < duration {
        total
    } else if !repeating {
        duration
    } else if duration == 0 {
        0
    } else {
        total % duration
    }
}

/// How often a timer that has not finished reaches its duration in one tick
/// of `delta`. A repeating timer counts in 32 bits and drops what is above.
pub open spec fn times_finished_after(duration: nat, elapsed: nat, repeating: bool, delta: nat) -> nat {
    let total = elapsed + delta;
    if total < duration {
        0
    } else if !repeating {
        1
    } else if duration == 0 {
        0xffff_ffff
    } else {
        (total / duration) % 0x1_0000_0000
    }
}

/// Ticks `bevy::time::Timer`. The contract claims what `Timer::tick` does to a
/// timer that is not paused and has not finished, made by `Timer::new` with
/// the given duration and mode and brought to the given elapsed time by
/// `Timer::set_elapsed`: the elapsed time grows by `delta_ns`; the timer is
/// finished when that reaches the duration; a one-shot timer then stops at the
/// duration and counts one expiry; a repeating timer keeps the remainder and
/// counts the quotient, cut to 32 bits (all 32 set for a duration of zero).
#[verifier::external_body]
fn tick_running(duration_ns: u64, elapsed_ns: u64, mode: TimerMode, delta_ns: u64) -> (out: Ticked)
    ensures
        out.elapsed_ns == elapsed_after(
            duration_ns as nat,
            elapsed_ns as nat,
            mode == TimerMode::Repeating,
            delta_ns as nat,
        ),
        out.finished == (elapsed_ns + delta_ns >= duration_ns),
        out.times_finished == times_finished_after(
            duration_ns as nat,
            elapsed_ns as nat,
            mode == TimerMode::Repeating,
            delta_ns as nat,
        ),
{
    let outside_mode = match mode {
        TimerMode::Once => bevy::time::TimerMode::Once,
        TimerMode::Repeating => bevy::time::TimerMode::Repeating,
    };
    let mut timer = bevy::time::Timer::new(std::time::Duration::from_nanos(duration_ns), outside_mode);
    timer.set_elapsed(std::time::Duration::from_nanos(elapsed_ns));
    timer.tick(std::time::Duration::from_nanos(delta_ns));
    Ticked {
        elapsed_ns: timer.elapsed().as_nanos() as u64,
        finished: timer.finished(),
        times_finished: timer.times_finished_this_tick(),
    }
}

impl Timer {
    /// The elapsed time never passes the duration, a repeating timer has
    /// started over whenever it reached it, and a one-shot timer that is
    /// finished stands at its duration.
    pub open spec fn wf(self) -> bool {
        &&& self.elapsed_ns <= self.duration_ns
        &&& (self.mode == TimerMode::Repeating && self.duration_ns > 0 ==> self.elapsed_ns
            < self.duration_ns)
        &&& (self.mode == TimerMode::Once && self.finished ==> self.elapsed_ns == self.duration_ns)
    }

    /// Time still to run.
    pub open spec fn remaining(self) -> nat {
        if self.elapsed_ns <= self.duration_ns {
            (self.duration_ns - self.elapsed_ns) as nat
        } else {
            0
        }
    }

    /// True when the last tick reached the duration.
    pub open spec fn spec_just_finished(self) -> bool {
        self.times_finished_this_tick > 0
    }

    /// The timer after a tick of `delta` nanoseconds. A one-shot timer that has
    /// finished stays as it is and reports no further expiry.
    pub open spec fn ticked(self, delta: nat) -> Timer
        recommends
            delta <= u64::MAX,
    {
        if self.mode == TimerMode::Once && self.finished {
            Timer { times_finished_this_tick: 0, ..self }
        } else {
            let repeating = self.mode == TimerMode::Repeating;
            Timer {
                duration_ns: self.duration_ns,
                elapsed_ns: elapsed_after(
                    self.duration_ns as nat,
                    self.elapsed_ns as nat,
                    repeating,
                    delta,
                ) as u64,
                mode: self.mode,
                finished: self.elapsed_ns + delta >= self.duration_ns,
                times_finished_this_tick: times_finished_after(
                    self.duration_ns as nat,
                    self.elapsed_ns as nat,
                    repeating,
                    delta,
                ) as u32,
            }
        }
    }

    /// A timer of `duration_ns` nanoseconds that has not run yet.
    pub fn new(duration_ns: u64, mode: TimerMode) -> (timer: Timer)
        ensures
            timer == (Timer {
                duration_ns,
                elapsed_ns: 0,
                mode,
                finished: false,
                times_finished_this_tick: 0,
            }),
            timer.wf(),
    {
        Timer { duration_ns, elapsed_ns: 0, mode, finished: false, times_finished_this_tick: 0 }
    }

    /// Advances the timer by `delta_ns` nanoseconds.
    pub fn tick(&mut self, delta_ns: u64)
        ensures
            *final(self) == old(self).ticked(delta_ns as nat),
            old(self).wf() ==> final(self).wf(),
    {
        if self.mode == TimerMode::Once && self.finished {
            self.times_finished_this_tick = 0;
        } else {
            let out = tick_running(self.duration_ns, self.elapsed_ns, self.mode, delta_ns);
            proof {
                lemma_elapsed_after_bounded(
                    self.duration_ns as nat,
                    self.elapsed_ns as nat,
                    self.mode == TimerMode::Repeating,
                    delta_ns as nat,
                );
            }
            self.elapsed_ns = out.elapsed_ns;
            self.finished = out.finished;
            self.times_finished_this_tick = out.times_finished;
        }
    }

    /// Whether the last tick reached the duration.
    pub fn just_finished(&self) -> (expired: bool)
        ensures
            expired == self.spec_just_finished(),
    {
        self.times_finished_this_tick > 0
    }

    /// Puts the timer back to its start.
    pub fn reset(&mut self)
        ensures
            *final(self) == (Timer {
                elapsed_ns: 0,
                finished: false,
                times_finished_this_tick: 0,
                ..*old(self)
            }),
            final(self).wf(),
    {
        self.elapsed_ns = 0;
        self.finished = false;
        self.times_finished_this_tick = 0;
    }
}

/// A running timer never ends a tick above its duration, and a repeating one
/// of positive duration ends it below.
pub proof fn lemma_elapsed_after_bounded(duration: nat, elapsed: nat, repeating: bool, delta: nat)
    ensures
        elapsed + delta < duration ==> elapsed_after(duration, elapsed, repeating, delta) == elapsed
            + delta,
        elapsed_after(duration, elapsed, repeating, delta) <= duration,
        repeating && duration > 0 ==> elapsed_after(duration, elapsed, repeating, delta) < duration,
        elapsed + delta >= duration && !repeating ==> elapsed_after(
            duration,
            elapsed,
            repeating,
            delta,
        ) == duration,
{
    if repeating && duration > 0 && elapsed + delta >= duration {
        assert(((elapsed + delta) as int) % (duration as int) < duration) by (nonlinear_arith)
            requires
                duration > 0,
        ;
    }
}

/// The time that a run of ticks adds up to.
pub open spec fn total(deltas: Seq<u64>) -> nat
    decreases deltas.len(),
{
    if deltas.len() == 0 {
        0
    } else {
        total(deltas.drop_last()) + deltas.last() as nat
    }
}

} // verus!
