//! Stopwatch and countdown (pomodoro) timers.
//!
//! Times are kept as whole nanoseconds in a `u128`, which holds every
//! duration std can represent. The clock is read through two trusted
//! wrappers; everything built on top of the readings is verified.
use vstd::prelude::*;

use std::time::Instant;

verus! {

#[verifier::external_type_specification]
#[verifier::external_body]
pub struct ExInstant(Instant);

/// Nanoseconds in one second.
pub const NANOS_PER_SEC: u128 = 1_000_000_000;

/// Reads the monotonic clock.
///
/// Trusted: wraps `std::time::Instant::now`. Nothing is stated of the
/// reading, which depends on the moment of the call.
#[verifier::external_body]
fn clock_now() -> Instant {
    Instant::now()
}

/// Whole nanoseconds elapsed since `start`.
///
/// Trusted: wraps `Instant::elapsed` and converts the `Duration` with
/// `Duration::as_nanos`. Nothing is stated of the result, which depends on
/// the moment of the call.
#[verifier::external_body]
fn nanos_since(start: &Instant) -> u128 {
    start.elapsed().as_nanos()
}

#[derive(Debug, Clone, Copy, PartialEq, Eq, Structural)]
pub enum TimerKind {
    /// Task-bound, open-ended; accumulates into the task's `time_spent_secs`.
    Stopwatch,
    /// Global pomodoro; not bound to any task, nothing is persisted.
    Countdown,
}

/// The task a stopwatch timer accumulates time into (list indexes shift on
/// sort, so the title is the stable identity).
#[derive(Debug, Clone)]
pub struct TimerTaskBinding {
    pub project_index: usize,
    pub task_title: String,
}

/// Runtime state of a timer. Not persisted; a stopwatch settles its elapsed
/// seconds into the bound task, a countdown never accumulates anything: at
/// zero it rings the bell once and stays finished until dismissed.
#[derive(Debug)]
pub struct TimerState {
    pub kind: TimerKind,
    /// Countdown target in seconds (unused for a stopwatch).
    pub target_secs: u64,
    /// Nanoseconds accumulated across pause/resume cycles.
    pub accumulated_nanos: u128,
    /// `Some` while the timer is running.
    pub started_at: Option<Instant>,
    /// Task binding (stopwatch only).
    pub bound: Option<TimerTaskBinding>,
    /// Countdown only: set once the bell has been rung at zero.
    pub rung: bool,
}

/// The countdown target in nanoseconds.
pub open spec fn target_nanos(secs: u64) -> nat {
    secs as nat * 1_000_000_000
}

impl TimerState {
    pub open spec fn running(&self) -> bool {
        self.started_at is Some
    }

    /// Whether the binding names the given project and task title.
    pub open spec fn bound_to(&self, project_index: usize, task_title: Seq<char>) -> bool {
        match self.bound {
            Some(b) => b.project_index == project_index && b.task_title@ == task_title,
            None => false,
        }
    }

    /// The time shown after `running` nanoseconds read from the clock since
    /// the current start: the accumulated time plus the reading while
    /// running (saturating), the accumulated time alone while paused.
    pub open spec fn elapsed_at(&self, running: u128) -> u128 {
        if self.running() {
            self.elapsed_with(running)
        } else {
            self.accumulated_nanos
        }
    }

    /// A countdown is finished once `elapsed` reaches its target; a
    /// stopwatch never is.
    pub open spec fn finished_at(&self, elapsed: u128) -> bool {
        self.kind == TimerKind::Countdown && elapsed >= target_nanos(self.target_secs)
    }

    /// `u` is this timer stopped after `running` nanoseconds read since its
    /// start: it keeps the time shown at that reading, everything else is
    /// unchanged.
    pub open spec fn paused_with(&self, u: TimerState, running: u128) -> bool {
        &&& !u.running()
        &&& u.kind == self.kind
        &&& u.target_secs == self.target_secs
        &&& u.bound == self.bound
        &&& u.rung == self.rung
        &&& u.accumulated_nanos == self.elapsed_at(running)
    }

    /// `u` is this timer stopped at some clock reading.
    pub open spec fn paused_to(&self, u: TimerState) -> bool {
        exists|n: u128| #[trigger] self.paused_with(u, n)
    }

    /// `u` is this timer running again with the time run so far; a running
    /// timer keeps its start.
    pub open spec fn resumed_to(&self, u: TimerState) -> bool {
        &&& u.running()
        &&& u.kind == self.kind
        &&& u.target_secs == self.target_secs
        &&& u.bound == self.bound
        &&& u.rung == self.rung
        &&& u.accumulated_nanos == self.accumulated_nanos
        &&& (self.running() ==> u.started_at == self.started_at)
    }

    /// The time shown by a paused timer (or by a running one plus the
    /// `running` nanoseconds since its start), saturating at `u128::MAX`.
    pub open spec fn elapsed_with(&self, running: u128) -> u128 {
        if self.accumulated_nanos + running > u128::MAX {
            u128::MAX
        } else {
            (self.accumulated_nanos + running) as u128
        }
    }

    /// Time left of a countdown after `elapsed` nanoseconds, floored at zero.
    pub open spec fn remaining_after(&self, elapsed: u128) -> Option<u128> {
        if self.kind == TimerKind::Countdown {
            if elapsed >= target_nanos(self.target_secs) {
                Some(0u128)
            } else {
                Some((target_nanos(self.target_secs) - elapsed) as u128)
            }
        } else {
            None
        }
    }

    /// A stopwatch bound to the given task, started now.
    pub fn new_stopwatch(project_index: usize, task_title: String) -> (r: Self)
        ensures
            r.kind == TimerKind::Stopwatch,
            r.target_secs == 0,
            r.accumulated_nanos == 0,
            r.running(),
            r.bound == Some(TimerTaskBinding { project_index, task_title }),
            !r.rung,
    {
        Self {
            kind: TimerKind::Stopwatch,
            target_secs: 0,
            accumulated_nanos: 0,
            started_at: Some(clock_now()),
            bound: Some(TimerTaskBinding { project_index, task_title }),
            rung: false,
        }
    }

    /// A pomodoro of `target_secs` seconds, started now.
    pub fn new_countdown(target_secs: u64) -> (r: Self)
        ensures
            r.kind == TimerKind::Countdown,
            r.target_secs == target_secs,
            r.accumulated_nanos == 0,
            r.running(),
            r.bound is None,
            !r.rung,
    {
        Self {
            kind: TimerKind::Countdown,
            target_secs,
            accumulated_nanos: 0,
            started_at: Some(clock_now()),
            bound: None,
            rung: false,
        }
    }

    /// Whether this timer is bound to the given task.
    pub fn is_bound_to(&self, project_index: usize, task_title: &str) -> (r: bool)
        ensures
            r == self.bound_to(project_index, task_title@),
    {
        match &self.bound {
            Some(b) => b.project_index == project_index && crate::text::same_text(
                b.task_title.as_str(),
                task_title,
            ),
            None => false,
        }
    }

    /// The elapsed time given the nanoseconds read from the clock since the
    /// current start (ignored while paused).
    pub fn elapsed_given(&self, running_nanos: u128) -> (r: u128)
        ensures
            r == (if self.running() {
                self.elapsed_with(running_nanos)
            } else {
                self.accumulated_nanos
            }),
    {
        if self.started_at.is_some() {
            self.accumulated_nanos.saturating_add(running_nanos)
        } else {
            self.accumulated_nanos
        }
    }

    /// Nanoseconds read from the clock since the current start; 0 while
    /// paused. What is read depends on the moment of the call.
    pub fn clock_reading(&self) -> (r: u128)
        ensures
            !self.running() ==> r == 0,
    {
        match &self.started_at {
            Some(t) => nanos_since(t),
            None => 0,
        }
    }

    /// Elapsed nanoseconds: the accumulated time, plus the time since the
    /// current start while running, read once from the clock.
    pub fn elapsed(&self) -> (r: u128)
        ensures
            exists|n: u128| r == #[trigger] self.elapsed_at(n),
            !self.running() ==> r == self.accumulated_nanos,
            r >= self.accumulated_nanos,
    {
        let n = self.clock_reading();
        let r = self.elapsed_given(n);
        assert(r == self.elapsed_at(n));
        r
    }

    /// The countdown's time left after `elapsed` nanoseconds.
    pub fn remaining_given(&self, elapsed: u128) -> (r: Option<u128>)
        ensures
            r == self.remaining_after(elapsed),
    {
        if self.kind != TimerKind::Countdown {
            return None;
        }
        let target = self.target_secs as u128 * NANOS_PER_SEC;
        Some(target.saturating_sub(elapsed))
    }

    /// `None` for a stopwatch; the time left for a countdown (zero once done).
    pub fn remaining(&self) -> (r: Option<u128>)
        ensures
            exists|n: u128| r == self.remaining_after(#[trigger] self.elapsed_at(n)),
            self.kind != TimerKind::Countdown ==> r is None,
            !self.running() ==> r == self.remaining_after(self.accumulated_nanos),
            self.kind == TimerKind::Countdown ==> r is Some && r->0 <= self.remaining_after(
                self.accumulated_nanos,
            )->0,
    {
        let e = self.elapsed();
        self.remaining_given(e)
    }

    pub fn is_running(&self) -> (r: bool)
        ensures
            r == self.running(),
    {
        self.started_at.is_some()
    }

    /// Whether the timer is finished once `elapsed` nanoseconds are shown.
    pub fn is_finished_given(&self, elapsed: u128) -> (r: bool)
        ensures
            r == self.finished_at(elapsed),
    {
        match self.remaining_given(elapsed) {
            Some(left) => left == 0,
            None => false,
        }
    }

    /// `true` once a countdown has run down to zero (stopwatches never
    /// finish), at one reading of the clock.
    pub fn is_finished(&self) -> (r: bool)
        ensures
            exists|n: u128| r == self.finished_at(#[trigger] self.elapsed_at(n)),
            r ==> self.kind == TimerKind::Countdown,
            !self.running() ==> r == (self.kind == TimerKind::Countdown
                && self.accumulated_nanos >= target_nanos(self.target_secs)),
            self.kind == TimerKind::Countdown && self.accumulated_nanos >= target_nanos(
                self.target_secs,
            ) ==> r,
    {
        let n = self.clock_reading();
        let e = self.elapsed_given(n);
        let r = self.is_finished_given(e);
        assert(r == self.finished_at(self.elapsed_at(n)));
        r
    }

    /// Stops the clock `running_nanos` after the current start, keeping the
    /// time shown at that reading; a paused timer is unchanged.
    pub fn pause_given(&mut self, running_nanos: u128)
        ensures
            old(self).paused_with(*final(self), running_nanos),
    {
        if self.started_at.is_some() {
            self.accumulated_nanos = self.accumulated_nanos.saturating_add(running_nanos);
            self.started_at = None;
        }
    }

    /// Stops the clock, keeping the time run so far (read once).
    pub fn pause(&mut self)
        ensures
            old(self).paused_to(*final(self)),
    {
        let n = self.clock_reading();
        self.pause_given(n);
        assert(old(self).paused_with(*self, n));
    }

    /// Restarts the clock of a paused timer; a running timer is unchanged.
    pub fn resume(&mut self)
        ensures
            old(self).resumed_to(*final(self)),
    {
        if self.started_at.is_none() {
            self.started_at = Some(clock_now());
        }
    }
}

} // verus!
