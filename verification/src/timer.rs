//! A pausable countdown timer.
//!
//! The timer counts wall-clock milliseconds against a fixed duration,
//! excluding any time spent paused.  All of the accounting is expressed
//! over plain millisecond values: every query and transition exists in a
//! `*_at` form that takes the current clock reading as an argument and
//! carries an exact contract.  The argument-free forms mirror them by
//! reading the system clock, about whose value nothing is assumed.

use vstd::prelude::*;

verus! {

use crate::saturating::add_ms;
use crate::saturating::sat_add;
use crate::saturating::sat_sub;
use crate::saturating::sub_ms;

#[derive(Clone, Copy, PartialEq, Eq, Structural, Debug)]
pub enum TimerState {
    Idle,
    Running,
    Paused,
    Completed,
}

/// Countdown timer state.  `start` and `paused_at` are clock readings in
/// milliseconds; `accumulated_pause_ms` is the total length of the pauses
/// that have already ended.
#[derive(Clone, Debug)]
pub struct Timer {
    pub start: Option<u64>,
    pub duration_ms: u64,
    pub paused_at: Option<u64>,
    pub accumulated_pause_ms: u64,
    pub state: TimerState,
}

impl Timer {
    /// Length of the pause currently in progress, as read at `now_ms`.
    pub open spec fn spec_current_pause_ms(self, now_ms: u64) -> int {
        if self.state is Paused {
            match self.paused_at {
                Some(p) => sat_sub(now_ms as int, p as int),
                None => 0,
            }
        } else {
            0
        }
    }

    /// Elapsed running time at clock reading `now_ms`: the time since
    /// `start`, less every completed pause and the pause in progress.
    /// Zero while the timer has not been started.
    pub open spec fn spec_elapsed_ms(self, now_ms: u64) -> int {
        match self.start {
            Some(s) => sat_sub(
                sat_sub(sat_sub(now_ms as int, s as int), self.accumulated_pause_ms as int),
                self.spec_current_pause_ms(now_ms),
            ),
            None => 0,
        }
    }

    /// Time left at clock reading `now_ms`, floored at zero.
    pub open spec fn spec_remaining_ms(self, now_ms: u64) -> int {
        sat_sub(self.duration_ms as int, self.spec_elapsed_ms(now_ms))
    }

    /// A timer is expired only while Running with its duration used up.
    pub open spec fn spec_is_expired(self, now_ms: u64) -> bool {
        self.state is Running && self.spec_elapsed_ms(now_ms) >= self.duration_ms
    }

    /// Externally visible state: Completed once expired, otherwise the
    /// stored state verbatim.
    pub open spec fn spec_state(self, now_ms: u64) -> TimerState {
        if self.spec_is_expired(now_ms) {
            TimerState::Completed
        } else {
            self.state
        }
    }

    /// The timer after `start` is requested at clock reading `now_ms`:
    /// a transition only out of Idle, otherwise a no-op.
    pub open spec fn spec_started(self, now_ms: u64) -> Timer {
        if self.state is Idle {
            Timer { start: Some(now_ms), state: TimerState::Running, ..self }
        } else {
            self
        }
    }

    /// The timer after `pause` is requested at clock reading `now_ms`:
    /// a transition only out of Running, otherwise a no-op.
    pub open spec fn spec_paused(self, now_ms: u64) -> Timer {
        if self.state is Running {
            Timer { paused_at: Some(now_ms), state: TimerState::Paused, ..self }
        } else {
            self
        }
    }

    /// The timer after `resume` is requested at clock reading `now_ms`:
    /// the just-ended pause is folded into `accumulated_pause_ms`.
    pub open spec fn spec_resumed(self, now_ms: u64) -> Timer {
        if self.state is Paused && self.paused_at is Some {
            Timer {
                paused_at: None,
                accumulated_pause_ms: sat_add(
                    self.accumulated_pause_ms as int,
                    sat_sub(now_ms as int, self.paused_at->0 as int),
                ) as u64,
                state: TimerState::Running,
                ..self
            }
        } else {
            self
        }
    }

    /// A fresh Idle timer for a countdown of `seconds` whole seconds.
    pub fn new(seconds: u64) -> (t: Timer)
        requires
            seconds <= u64::MAX / 1000,
        ensures
            t.start is None,
            t.paused_at is None,
            t.accumulated_pause_ms == 0,
            t.state is Idle,
            t.duration_ms == seconds * 1000,
    {
        Timer {
            start: None,
            duration_ms: seconds * 1000,
            paused_at: None,
            accumulated_pause_ms: 0,
            state: TimerState::Idle,
        }
    }

    /// Begin the countdown at clock reading `now_ms`; a no-op unless Idle.
    pub fn start_at(&mut self, now_ms: u64)
        ensures
            *final(self) == old(self).spec_started(now_ms),
    {
        if self.state == TimerState::Idle {
            self.start = Some(now_ms);
            self.state = TimerState::Running;
        }
    }

    /// Pause the countdown at clock reading `now_ms`; a no-op unless Running.
    pub fn pause_at(&mut self, now_ms: u64)
        ensures
            *final(self) == old(self).spec_paused(now_ms),
    {
        if self.state == TimerState::Running {
            self.paused_at = Some(now_ms);
            self.state = TimerState::Paused;
        }
    }

    /// End the pause at clock reading `now_ms`; a no-op unless Paused.
    pub fn resume_at(&mut self, now_ms: u64)
        ensures
            *final(self) == old(self).spec_resumed(now_ms),
    {
        if self.state == TimerState::Paused {
            if let Some(p) = self.paused_at {
                let pause_len: u64 = sub_ms(now_ms, p);
                self.accumulated_pause_ms = add_ms(self.accumulated_pause_ms, pause_len);
                self.paused_at = None;
                self.state = TimerState::Running;
            }
        }
    }

    /// Force the timer into Completed, keeping its accounting intact.
    pub fn stop(&mut self)
        ensures
            final(self).state is Completed,
            final(self).start == old(self).start,
            final(self).duration_ms == old(self).duration_ms,
            final(self).paused_at == old(self).paused_at,
            final(self).accumulated_pause_ms == old(self).accumulated_pause_ms,
    {
        self.state = TimerState::Completed;
    }

    /// Return to Idle with all timestamps and accumulators cleared; the
    /// configured duration is preserved.
    pub fn reset(&mut self)
        ensures
            final(self).start is None,
            final(self).paused_at is None,
            final(self).accumulated_pause_ms == 0,
            final(self).state is Idle,
            final(self).duration_ms == old(self).duration_ms,
    {
        self.start = None;
        self.paused_at = None;
        self.accumulated_pause_ms = 0;
        self.state = TimerState::Idle;
    }

    /// Elapsed running time, computed against the clock reading `now_ms`.
    pub fn elapsed_at(&self, now_ms: u64) -> (r: u64)
        ensures
            r == self.spec_elapsed_ms(now_ms),
    {
        match self.start {
            Some(s) => {
                let base: u64 = sub_ms(now_ms, s);
                let after_pauses: u64 = sub_ms(base, self.accumulated_pause_ms);
                let current_pause: u64 = if self.state == TimerState::Paused {
                    match self.paused_at {
                        Some(p) => sub_ms(now_ms, p),
                        None => 0,
                    }
                } else {
                    0
                };
                sub_ms(after_pauses, current_pause)
            }
            None => 0,
        }
    }

    /// Time left, computed against the clock reading `now_ms`.
    pub fn remaining_at(&self, now_ms: u64) -> (r: u64)
        ensures
            r == self.spec_remaining_ms(now_ms),
    {
        let e: u64 = self.elapsed_at(now_ms);
        sub_ms(self.duration_ms, e)
    }

    /// Whether the timer is expired at clock reading `now_ms`.
    pub fn is_expired_at(&self, now_ms: u64) -> (r: bool)
        ensures
            r == self.spec_is_expired(now_ms),
    {
        self.state == TimerState::Running && self.elapsed_at(now_ms) >= self.duration_ms
    }

    /// Externally visible state at clock reading `now_ms`.
    pub fn state_at(&self, now_ms: u64) -> (r: TimerState)
        ensures
            r == self.spec_state(now_ms),
    {
        if self.is_expired_at(now_ms) {
            TimerState::Completed
        } else {
            self.state
        }
    }

    /// Begin the countdown now; a no-op unless Idle.
    pub fn start(&mut self)
        ensures
            exists|now_ms: u64| *final(self) == old(self).spec_started(now_ms),
            old(self).state is Idle ==> final(self).state is Running && final(self).start is Some,
            !(old(self).state is Idle) ==> *final(self) == *old(self),
            final(self).duration_ms == old(self).duration_ms,
            final(self).paused_at == old(self).paused_at,
            final(self).accumulated_pause_ms == old(self).accumulated_pause_ms,
    {
        let now: u64 = now_millis();
        self.start_at(now);
    }

    /// Pause the countdown now; a no-op unless Running.
    pub fn pause(&mut self)
        ensures
            exists|now_ms: u64| *final(self) == old(self).spec_paused(now_ms),
            old(self).state is Running ==> final(self).state is Paused && final(self).paused_at
                is Some,
            !(old(self).state is Running) ==> *final(self) == *old(self),
            final(self).duration_ms == old(self).duration_ms,
            final(self).start == old(self).start,
            final(self).accumulated_pause_ms == old(self).accumulated_pause_ms,
    {
        let now: u64 = now_millis();
        self.pause_at(now);
    }

    /// End the pause now; a no-op unless Paused.
    pub fn resume(&mut self)
        ensures
            exists|now_ms: u64| *final(self) == old(self).spec_resumed(now_ms),
            old(self).state is Paused && old(self).paused_at is Some ==> final(self).state
                is Running && final(self).paused_at is None,
            !(old(self).state is Paused && old(self).paused_at is Some) ==> *final(self) == *old(
                self,
            ),
            final(self).duration_ms == old(self).duration_ms,
            final(self).start == old(self).start,
            final(self).accumulated_pause_ms >= old(self).accumulated_pause_ms,
    {
        let now: u64 = now_millis();
        self.resume_at(now);
    }

    /// Elapsed running time against the system clock.
    pub fn elapsed(&self) -> (r: u64)
        ensures
            exists|now_ms: u64| r == self.spec_elapsed_ms(now_ms),
            self.start is None ==> r == 0,
    {
        let now: u64 = now_millis();
        self.elapsed_at(now)
    }

    /// Time left against the system clock.
    pub fn remaining(&self) -> (r: u64)
        ensures
            exists|now_ms: u64| r == self.spec_remaining_ms(now_ms),
            r <= self.duration_ms,
            self.start is None ==> r == self.duration_ms,
    {
        let now: u64 = now_millis();
        self.remaining_at(now)
    }

    /// Whether the timer reads as expired against the system clock.
    pub fn is_expired(&self) -> (r: bool)
        ensures
            exists|now_ms: u64| r == self.spec_is_expired(now_ms),
            !(self.state is Running) ==> r == false,
    {
        let now: u64 = now_millis();
        self.is_expired_at(now)
    }

    /// Externally visible state against the system clock.
    pub fn state(&self) -> (r: TimerState)
        ensures
            exists|now_ms: u64| r == self.spec_state(now_ms),
            !(self.state is Running) ==> r == self.state,
            self.state is Running ==> r is Running || r is Completed,
    {
        let now: u64 = now_millis();
        self.state_at(now)
    }

    /// The configured countdown length in milliseconds.
    pub fn duration(&self) -> (r: u64)
        ensures
            r == self.duration_ms,
    {
        self.duration_ms
    }
}

/// Relies on std::time::SystemTime::now, read as whole milliseconds since the
/// Unix epoch; nothing is assumed about the value returned.
#[verifier::external_body]
fn now_millis() -> u64 {
    match std::time::SystemTime::now().duration_since(std::time::UNIX_EPOCH) {
        Ok(d) => {
            let ms: u128 = d.as_millis();
            if ms > u64::MAX as u128 {
                u64::MAX
            } else {
                ms as u64
            }
        }
        Err(_) => 0,
    }
}

/// A timer that has not been started reports no elapsed time and its full
/// duration remaining, whatever the clock reads.
pub proof fn lemma_unstarted_timer_reads_full(t: Timer, now_ms: u64)
    requires
        t.start is None,
    ensures
        t.spec_elapsed_ms(now_ms) == 0,
        t.spec_remaining_ms(now_ms) == t.duration_ms,
{
}

/// Pausing and then resuming, with no other operation in between, leaves the
/// elapsed reading exactly where it stood when the pause began.
pub proof fn lemma_pause_resume_preserves_elapsed(t: Timer, pause_ms: u64, resume_ms: u64)
    requires
        t.state is Running,
        pause_ms <= resume_ms,
    ensures
        t.spec_paused(pause_ms).spec_resumed(resume_ms).spec_elapsed_ms(resume_ms)
            == t.spec_elapsed_ms(pause_ms),
{
}

/// A timer reads as expired exactly when it is Running with its duration used
/// up; in particular a timer is never expired once paused, however far past
/// its duration it already is.
pub proof fn lemma_expired_only_while_running(t: Timer, pause_ms: u64, now_ms: u64)
    ensures
        t.spec_is_expired(now_ms) == (t.state is Running && t.spec_elapsed_ms(now_ms)
            >= t.duration_ms),
        !t.spec_paused(pause_ms).spec_is_expired(now_ms),
{
}

} // verus!
