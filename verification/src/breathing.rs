//! A guided breathing exercise.
//!
//! Four selectable patterns drive a phase state machine
//! (Inhale / Hold / Exhale / Rest / Transition) over a per-pattern duration
//! table.  `update` consumes host-supplied millisecond deltas; completed
//! breath cycles are counted against a target, and once the target is within
//! reach the engine freezes at the cycle boundary instead of starting a new
//! breath, so that a session never ends mid-inhale.

use vstd::prelude::*;

verus! {

use crate::saturating::add_ms;
use crate::saturating::sat_add;
use crate::saturating::sat_sub;
use crate::saturating::sub_ms;

#[derive(Clone, Copy, PartialEq, Eq, Structural, Debug)]
pub enum BreathingPattern {
    /// 3s in, 6s out, with transitions: emphasises the exhale.
    ExtendedExhale,
    /// 5s in, 5s out, with transitions: gentle continuous breathing.
    Coherent,
    /// 3-3-3-3 box breathing with holds instead of transitions.
    ShortBox,
    /// 4s in, 4s out, with transitions.
    Simple,
}

#[derive(Clone, Copy, PartialEq, Eq, Structural, Debug)]
pub enum BreathPhase {
    Inhale,
    Hold,
    Exhale,
    Rest,
    /// Brief pause between inhale and exhale, and again after the exhale.
    Transition,
}

/// Per-pattern table of phase lengths, in milliseconds.
pub open spec fn phase_duration_millis(pattern: BreathingPattern, phase: BreathPhase) -> u64 {
    match pattern {
        BreathingPattern::ExtendedExhale => match phase {
            BreathPhase::Inhale => 3000,
            BreathPhase::Hold => 0,
            BreathPhase::Exhale => 6000,
            BreathPhase::Rest => 0,
            BreathPhase::Transition => 1200,
        },
        BreathingPattern::Coherent => match phase {
            BreathPhase::Inhale => 5000,
            BreathPhase::Hold => 0,
            BreathPhase::Exhale => 5000,
            BreathPhase::Rest => 0,
            BreathPhase::Transition => 1000,
        },
        BreathingPattern::ShortBox => match phase {
            BreathPhase::Inhale => 3000,
            BreathPhase::Hold => 3000,
            BreathPhase::Exhale => 3000,
            BreathPhase::Rest => 3000,
            BreathPhase::Transition => 0,
        },
        BreathingPattern::Simple => match phase {
            BreathPhase::Inhale => 4000,
            BreathPhase::Hold => 0,
            BreathPhase::Exhale => 4000,
            BreathPhase::Rest => 0,
            BreathPhase::Transition => 1100,
        },
    }
}

/// Length of one full breath cycle, in milliseconds, used to derive a cycle
/// target from a wall-clock budget.
pub open spec fn cycle_duration_millis(pattern: BreathingPattern) -> u64 {
    match pattern {
        BreathingPattern::ExtendedExhale => 11400,
        BreathingPattern::Coherent => 12000,
        BreathingPattern::ShortBox => 12000,
        BreathingPattern::Simple => 10200,
    }
}

/// The cycle target that a wall-clock budget buys: the budget divided by the
/// cycle length, rounded up, clamped into `1 ..= u32::MAX`.
pub open spec fn target_cycles_from_duration(pattern: BreathingPattern, duration_ms: u64) -> u32 {
    let cycle = cycle_duration_millis(pattern) as int;
    let rounded_up = if duration_ms as int % cycle == 0 {
        duration_ms as int / cycle
    } else {
        duration_ms as int / cycle + 1
    };
    let capped = if rounded_up > u32::MAX {
        u32::MAX as int
    } else {
        rounded_up
    };
    if capped < 1 {
        1 as u32
    } else {
        capped as u32
    }
}

/// Breathing-exercise state.  `post_exhale_transition` tells the two uses of
/// the Transition phase apart; `ready_to_complete`, once set, keeps the cycle
/// counter from ever advancing again until a reset.
#[derive(Clone, Debug)]
pub struct BreathingExercise {
    pub pattern: BreathingPattern,
    pub current_phase: BreathPhase,
    pub phase_elapsed_ms: u64,
    pub total_elapsed_ms: u64,
    pub cycle_count: u32,
    pub target_cycles: u32,
    pub post_exhale_transition: bool,
    pub ready_to_complete: bool,
}

impl BreathingExercise {
    /// A fresh exercise: at the start of an inhale, nothing elapsed,
    /// no cycles completed.
    pub open spec fn spec_new_with_target(
        pattern: BreathingPattern,
        target_cycles: u32,
    ) -> BreathingExercise {
        BreathingExercise {
            pattern: pattern,
            current_phase: BreathPhase::Inhale,
            phase_elapsed_ms: 0,
            total_elapsed_ms: 0,
            cycle_count: 0,
            target_cycles: target_cycles,
            post_exhale_transition: false,
            ready_to_complete: false,
        }
    }

    /// The cycle counter stays below a positive target (and at zero for a
    /// target of zero); every reachable state satisfies this.
    pub open spec fn wf(self) -> bool {
        if self.target_cycles == 0 {
            self.cycle_count == 0
        } else {
            self.cycle_count < self.target_cycles
        }
    }

    /// Whether completing the current phase crosses a cycle boundary: the
    /// post-exhale Transition for transition-based patterns, Rest for box
    /// breathing.
    pub open spec fn spec_is_cycle_boundary(self) -> bool {
        if self.pattern is ShortBox {
            self.current_phase is Rest
        } else {
            match self.current_phase {
                BreathPhase::Transition => self.post_exhale_transition,
                BreathPhase::Hold | BreathPhase::Rest => true,
                _ => false,
            }
        }
    }

    /// The state after the current phase completes.  At a cycle boundary
    /// whose crossing would reach the target, `ready_to_complete` is set
    /// first; a boundary is then crossed (incrementing the cycle counter)
    /// only while the flag is clear, and otherwise the engine holds at the
    /// boundary phase with its phase clock rewound.
    pub open spec fn spec_advanced(self) -> BreathingExercise {
        let ready = self.ready_to_complete || (self.spec_is_cycle_boundary() && self.cycle_count
            + 1 >= self.target_cycles);
        let held = BreathingExercise { phase_elapsed_ms: 0, ready_to_complete: ready, ..self };
        if self.pattern is ShortBox {
            match self.current_phase {
                BreathPhase::Inhale => BreathingExercise {
                    current_phase: BreathPhase::Hold,
                    ..held
                },
                BreathPhase::Hold => BreathingExercise {
                    current_phase: BreathPhase::Exhale,
                    ..held
                },
                BreathPhase::Exhale => BreathingExercise {
                    current_phase: BreathPhase::Rest,
                    ..held
                },
                BreathPhase::Rest => if !ready {
                    BreathingExercise {
                        current_phase: BreathPhase::Inhale,
                        cycle_count: (self.cycle_count + 1) as u32,
                        post_exhale_transition: false,
                        ..held
                    }
                } else {
                    held
                },
                BreathPhase::Transition => BreathingExercise {
                    current_phase: BreathPhase::Exhale,
                    ..held
                },
            }
        } else {
            match self.current_phase {
                BreathPhase::Inhale => BreathingExercise {
                    current_phase: BreathPhase::Transition,
                    post_exhale_transition: false,
                    ..held
                },
                BreathPhase::Transition => if self.post_exhale_transition {
                    if !ready {
                        BreathingExercise {
                            current_phase: BreathPhase::Inhale,
                            cycle_count: (self.cycle_count + 1) as u32,
                            post_exhale_transition: false,
                            ..held
                        }
                    } else {
                        held
                    }
                } else {
                    BreathingExercise { current_phase: BreathPhase::Exhale, ..held }
                },
                BreathPhase::Exhale => BreathingExercise {
                    current_phase: BreathPhase::Transition,
                    post_exhale_transition: true,
                    ..held
                },
                BreathPhase::Hold | BreathPhase::Rest => if !ready {
                    BreathingExercise {
                        current_phase: BreathPhase::Inhale,
                        cycle_count: (self.cycle_count + 1) as u32,
                        ..held
                    }
                } else {
                    held
                },
            }
        }
    }

    /// The state after a tick of `delta_ms`: both clocks advance, and the
    /// phase completes once its table duration is reached.
    pub open spec fn spec_updated(self, delta_ms: u64) -> BreathingExercise {
        let ticked = BreathingExercise {
            phase_elapsed_ms: sat_add(self.phase_elapsed_ms as int, delta_ms as int) as u64,
            total_elapsed_ms: sat_add(self.total_elapsed_ms as int, delta_ms as int) as u64,
            ..self
        };
        if ticked.phase_elapsed_ms >= phase_duration_millis(self.pattern, self.current_phase) {
            ticked.spec_advanced()
        } else {
            ticked
        }
    }

    /// Whether ending the session right now is acceptable: the target has
    /// been reached and the current phase is a safe stopping point (an
    /// exhale, the transition after one, or Rest for box breathing) --
    /// never an inhale or a hold.
    pub open spec fn spec_should_complete(self) -> bool {
        self.ready_to_complete && match self.current_phase {
            BreathPhase::Exhale => true,
            BreathPhase::Transition => self.post_exhale_transition,
            BreathPhase::Rest => self.pattern is ShortBox,
            BreathPhase::Inhale | BreathPhase::Hold => false,
        }
    }

    /// Cycles still owed: the target less the completed count, floored at
    /// zero.
    pub open spec fn spec_remaining_cycles(self) -> int {
        sat_sub(self.target_cycles as int, self.cycle_count as int)
    }

    /// A fresh exercise with the default target of six cycles.
    pub fn new(pattern: BreathingPattern) -> (e: BreathingExercise)
        ensures
            e == BreathingExercise::spec_new_with_target(pattern, 6u32),
            e.wf(),
    {
        Self::new_with_target_cycles(pattern, 6)
    }

    /// A fresh exercise aiming for `target_cycles` full breath cycles.
    pub fn new_with_target_cycles(pattern: BreathingPattern, target_cycles: u32) -> (e:
        BreathingExercise)
        ensures
            e == BreathingExercise::spec_new_with_target(pattern, target_cycles),
            e.wf(),
    {
        BreathingExercise {
            pattern: pattern,
            current_phase: BreathPhase::Inhale,
            phase_elapsed_ms: 0,
            total_elapsed_ms: 0,
            cycle_count: 0,
            target_cycles: target_cycles,
            post_exhale_transition: false,
            ready_to_complete: false,
        }
    }

    /// A fresh exercise sized to a wall-clock budget of `duration_ms`:
    /// the budget divided by the pattern's cycle length, rounded up, with a
    /// minimum of one cycle.
    pub fn new_from_duration(pattern: BreathingPattern, duration_ms: u64) -> (e: BreathingExercise)
        ensures
            e == BreathingExercise::spec_new_with_target(
                pattern,
                target_cycles_from_duration(pattern, duration_ms),
            ),
            e.wf(),
    {
        let cycle_ms: u64 = Self::calculate_cycle_duration(pattern);
        let whole: u64 = duration_ms / cycle_ms;
        let leftover: u64 = duration_ms % cycle_ms;
        let capped: u32 = if whole >= 4294967295u64 {
            4294967295u32
        } else if leftover == 0 {
            whole as u32
        } else {
            (whole + 1) as u32
        };
        let target: u32 = if capped < 1 {
            1
        } else {
            capped
        };
        Self::new_with_target_cycles(pattern, target)
    }

    /// Length of one full breath cycle of `pattern`, in milliseconds.
    fn calculate_cycle_duration(pattern: BreathingPattern) -> (r: u64)
        ensures
            r == cycle_duration_millis(pattern),
    {
        match pattern {
            BreathingPattern::ExtendedExhale => 11400,
            BreathingPattern::Coherent => 12000,
            BreathingPattern::ShortBox => 12000,
            BreathingPattern::Simple => 10200,
        }
    }

    /// Advance both clocks by `delta_ms` and complete the current phase if
    /// its table duration has been reached.
    pub fn update(&mut self, delta_ms: u64)
        ensures
            *final(self) == old(self).spec_updated(delta_ms),
    {
        self.phase_elapsed_ms = add_ms(self.phase_elapsed_ms, delta_ms);
        self.total_elapsed_ms = add_ms(self.total_elapsed_ms, delta_ms);
        let phase_ms: u64 = self.get_phase_duration();
        if self.phase_elapsed_ms >= phase_ms {
            self.advance_phase();
        }
    }

    /// Table duration of the current phase, in milliseconds.
    fn get_phase_duration(&self) -> (r: u64)
        ensures
            r == phase_duration_millis(self.pattern, self.current_phase),
    {
        match self.pattern {
            BreathingPattern::ExtendedExhale => match self.current_phase {
                BreathPhase::Inhale => 3000,
                BreathPhase::Hold => 0,
                BreathPhase::Exhale => 6000,
                BreathPhase::Rest => 0,
                BreathPhase::Transition => 1200,
            },
            BreathingPattern::Coherent => match self.current_phase {
                BreathPhase::Inhale => 5000,
                BreathPhase::Hold => 0,
                BreathPhase::Exhale => 5000,
                BreathPhase::Rest => 0,
                BreathPhase::Transition => 1000,
            },
            BreathingPattern::ShortBox => match self.current_phase {
                BreathPhase::Inhale => 3000,
                BreathPhase::Hold => 3000,
                BreathPhase::Exhale => 3000,
                BreathPhase::Rest => 3000,
                BreathPhase::Transition => 0,
            },
            BreathingPattern::Simple => match self.current_phase {
                BreathPhase::Inhale => 4000,
                BreathPhase::Hold => 0,
                BreathPhase::Exhale => 4000,
                BreathPhase::Rest => 0,
                BreathPhase::Transition => 1100,
            },
        }
    }

    /// Complete the current phase: set `ready_to_complete` if the next
    /// boundary crossing would reach the target, then either cross the
    /// boundary or hold at it.
    fn advance_phase(&mut self)
        ensures
            *final(self) == old(self).spec_advanced(),
    {
        self.phase_elapsed_ms = 0;

        let boundary: bool = self.would_increment_cycle_count();
        if boundary && (self.cycle_count as u64) + 1 >= (self.target_cycles as u64) {
            self.ready_to_complete = true;
        }

        if self.pattern == BreathingPattern::ShortBox {
            match self.current_phase {
                BreathPhase::Inhale => {
                    self.current_phase = BreathPhase::Hold;
                }
                BreathPhase::Hold => {
                    self.current_phase = BreathPhase::Exhale;
                }
                BreathPhase::Exhale => {
                    self.current_phase = BreathPhase::Rest;
                }
                BreathPhase::Rest => {
                    if !self.ready_to_complete {
                        self.cycle_count = self.cycle_count + 1;
                        self.post_exhale_transition = false;
                        self.current_phase = BreathPhase::Inhale;
                    }
                    // otherwise hold at Rest
                }
                BreathPhase::Transition => {
                    // not part of the box sequence; recover onto the exhale
                    self.current_phase = BreathPhase::Exhale;
                }
            }
        } else {
            match self.current_phase {
                BreathPhase::Inhale => {
                    self.post_exhale_transition = false;
                    self.current_phase = BreathPhase::Transition;
                }
                BreathPhase::Transition => {
                    if self.post_exhale_transition {
                        if !self.ready_to_complete {
                            self.cycle_count = self.cycle_count + 1;
                            self.post_exhale_transition = false;
                            self.current_phase = BreathPhase::Inhale;
                        }
                        // otherwise hold in the post-exhale transition
                    } else {
                        self.current_phase = BreathPhase::Exhale;
                    }
                }
                BreathPhase::Exhale => {
                    self.post_exhale_transition = true;
                    self.current_phase = BreathPhase::Transition;
                }
                BreathPhase::Hold | BreathPhase::Rest => {
                    // not part of a transition-based sequence; treat as a
                    // boundary, as the box sequence does
                    if !self.ready_to_complete {
                        self.cycle_count = self.cycle_count + 1;
                        self.current_phase = BreathPhase::Inhale;
                    }
                }
            }
        }
    }

    /// Whether completing the current phase crosses a cycle boundary.
    fn would_increment_cycle_count(&self) -> (r: bool)
        ensures
            r == self.spec_is_cycle_boundary(),
    {
        if self.pattern == BreathingPattern::ShortBox {
            self.current_phase == BreathPhase::Rest
        } else {
            match self.current_phase {
                BreathPhase::Transition => self.post_exhale_transition,
                BreathPhase::Hold | BreathPhase::Rest => true,
                _ => false,
            }
        }
    }

    /// Textual label for the current phase.
    pub fn get_instruction(&self) -> (r: &'static str)
        ensures
            self.current_phase is Inhale ==> r@ == "Breathe In"@,
            self.current_phase is Hold ==> r@ == "Hold"@,
            self.current_phase is Exhale ==> r@ == "Breathe Out"@,
            self.current_phase is Rest ==> r@ == "Rest"@,
            self.current_phase is Transition ==> r@ == "..."@,
    {
        match self.current_phase {
            BreathPhase::Inhale => "Breathe In",
            BreathPhase::Hold => "Hold",
            BreathPhase::Exhale => "Breathe Out",
            BreathPhase::Rest => "Rest",
            BreathPhase::Transition => "...",
        }
    }

    /// The pattern this exercise was built with.
    pub fn get_pattern(&self) -> (r: BreathingPattern)
        ensures
            r == self.pattern,
    {
        self.pattern
    }

    /// Human-readable name of the pattern.
    pub fn get_pattern_name(&self) -> (r: &'static str)
        ensures
            self.pattern is ExtendedExhale ==> r@ == "Extended Exhale (3-6)"@,
            self.pattern is Coherent ==> r@ == "Coherent Breathing (5-5)"@,
            self.pattern is ShortBox ==> r@ == "Short Box (3-3-3-3)"@,
            self.pattern is Simple ==> r@ == "Simple Breathing (4-4)"@,
    {
        match self.pattern {
            BreathingPattern::ExtendedExhale => "Extended Exhale (3-6)",
            BreathingPattern::Coherent => "Coherent Breathing (5-5)",
            BreathingPattern::ShortBox => "Short Box (3-3-3-3)",
            BreathingPattern::Simple => "Simple Breathing (4-4)",
        }
    }

    /// Completed full breath cycles so far.
    pub fn get_cycle_count(&self) -> (r: u32)
        ensures
            r == self.cycle_count,
    {
        self.cycle_count
    }

    /// The cycle target fixed at construction.
    pub fn get_target_cycles(&self) -> (r: u32)
        ensures
            r == self.target_cycles,
    {
        self.target_cycles
    }

    /// Cycles still owed: the target less the completed count, floored at
    /// zero.
    pub fn get_remaining_cycles(&self) -> (r: u32)
        ensures
            r == self.spec_remaining_cycles(),
    {
        if self.target_cycles >= self.cycle_count {
            self.target_cycles - self.cycle_count
        } else {
            0
        }
    }

    /// Whether ending the session right now is acceptable; see
    /// `spec_should_complete`.
    pub fn should_complete_session(&self) -> (r: bool)
        ensures
            r == self.spec_should_complete(),
    {
        if self.ready_to_complete {
            match self.current_phase {
                BreathPhase::Exhale => true,
                BreathPhase::Transition => self.post_exhale_transition,
                BreathPhase::Rest => self.pattern == BreathingPattern::ShortBox,
                BreathPhase::Inhale | BreathPhase::Hold => false,
            }
        } else {
            false
        }
    }

    /// Milliseconds left in the current phase, floored at zero.
    pub fn get_remaining_in_phase(&self) -> (r: u64)
        ensures
            r == sat_sub(
                phase_duration_millis(self.pattern, self.current_phase) as int,
                self.phase_elapsed_ms as int,
            ),
    {
        let phase_ms: u64 = self.get_phase_duration();
        sub_ms(phase_ms, self.phase_elapsed_ms)
    }

    /// Return to the start of an inhale with all progress cleared; the
    /// pattern and the cycle target are preserved.
    pub fn reset(&mut self)
        ensures
            *final(self) == BreathingExercise::spec_new_with_target(
                old(self).pattern,
                old(self).target_cycles,
            ),
            final(self).wf(),
    {
        self.current_phase = BreathPhase::Inhale;
        self.phase_elapsed_ms = 0;
        self.total_elapsed_ms = 0;
        self.cycle_count = 0;
        self.post_exhale_transition = false;
        self.ready_to_complete = false;
    }

    /// The phase the exercise is in right now.
    pub fn get_current_phase(&self) -> (r: BreathPhase)
        ensures
            r == self.current_phase,
    {
        self.current_phase
    }

    /// Total milliseconds of updates consumed since construction or reset.
    pub fn get_total_elapsed(&self) -> (r: u64)
        ensures
            r == self.total_elapsed_ms,
    {
        self.total_elapsed_ms
    }

    /// Whether a current Transition phase follows the exhale.
    pub fn is_post_exhale_transition(&self) -> (r: bool)
        ensures
            r == self.post_exhale_transition,
    {
        self.post_exhale_transition
    }
}

/// The engine never offers to end a session during an inhale or a hold,
/// whatever state it is in.
pub proof fn lemma_never_completes_mid_breath(e: BreathingExercise)
    ensures
        e.current_phase is Inhale || e.current_phase is Hold ==> !e.spec_should_complete(),
{
}

/// Once `ready_to_complete` is set, a tick never advances the cycle counter,
/// never clears the flag, and leaves the remaining-cycle count unchanged.
pub proof fn lemma_ready_freezes_cycles(e: BreathingExercise, delta_ms: u64)
    requires
        e.ready_to_complete,
    ensures
        e.spec_updated(delta_ms).ready_to_complete,
        e.spec_updated(delta_ms).cycle_count == e.cycle_count,
        e.spec_updated(delta_ms).target_cycles == e.target_cycles,
        e.spec_updated(delta_ms).spec_remaining_cycles() == e.spec_remaining_cycles(),
{
}

/// Ticking preserves well-formedness: with a positive target the completed
/// count stays at most one below it, so the counter can never pass the
/// target.
pub proof fn lemma_update_preserves_wf(e: BreathingExercise, delta_ms: u64)
    requires
        e.wf(),
    ensures
        e.spec_updated(delta_ms).wf(),
        e.target_cycles > 0 ==> e.spec_updated(delta_ms).cycle_count <= e.target_cycles - 1,
{
}

} // verus!
