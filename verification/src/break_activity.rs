//! Activities offered during a break, and the frame counter that animates
//! the ones with a visual guide.

use vstd::prelude::*;

verus! {

use crate::saturating::add_ms;
use crate::saturating::sat_add;

/// Different activities available during breaks.
#[derive(Clone, Copy, PartialEq, Eq, Structural, Debug)]
pub enum BreakActivity {
    /// Traditional breathing exercises with visual guide.
    Breathing,
    /// Stretching with animated guide.
    Stretch,
}

impl BreakActivity {
    /// Display name for the activity.
    pub fn display_name(&self) -> (r: &'static str)
        ensures
            *self is Breathing ==> r@ == "Breathing Exercise"@,
            *self is Stretch ==> r@ == "Stretch Break"@,
    {
        match self {
            BreakActivity::Breathing => "Breathing Exercise",
            BreakActivity::Stretch => "Stretch Break",
        }
    }

    /// Emoji icon for the activity.
    pub fn icon(&self) -> (r: &'static str)
        ensures
            *self is Breathing ==> r@ == "\u{1fab1}"@,
            *self is Stretch ==> r@ == "\u{1f938}"@,
    {
        match self {
            BreakActivity::Breathing => "\u{1fab1}",
            BreakActivity::Stretch => "\u{1f938}",
        }
    }

    /// Description for the activity.
    pub fn description(&self) -> (r: &'static str)
        ensures
            *self is Breathing ==> r@ == "Guided breathing with visual circle"@,
            *self is Stretch ==> r@ == "Simple stretches with animated guide"@,
    {
        match self {
            BreakActivity::Breathing => "Guided breathing with visual circle",
            BreakActivity::Stretch => "Simple stretches with animated guide",
        }
    }

    /// Whether this activity has a visual animation.
    pub fn has_animation(&self) -> (r: bool)
        ensures
            r,
    {
        match self {
            BreakActivity::Breathing | BreakActivity::Stretch => true,
        }
    }
}

/// Animation state for non-breathing break activities.  The stretch guide
/// steps through four positions, one per second; the breathing activity
/// paces its own animation and only accumulates time here.
#[derive(Clone, Debug)]
pub struct BreakAnimation {
    pub activity: BreakActivity,
    pub phase_elapsed_ms: u64,
    pub total_elapsed_ms: u64,
    pub animation_frame: u32,
}

impl BreakAnimation {
    /// The state after a tick of `delta_ms`: both clocks advance, and once a
    /// full second has accumulated the stretch guide moves to the next of
    /// its four positions.
    pub open spec fn spec_updated(self, delta_ms: u64) -> BreakAnimation {
        let ticked = BreakAnimation {
            phase_elapsed_ms: sat_add(self.phase_elapsed_ms as int, delta_ms as int) as u64,
            total_elapsed_ms: sat_add(self.total_elapsed_ms as int, delta_ms as int) as u64,
            ..self
        };
        if self.activity is Stretch && ticked.phase_elapsed_ms >= 1000 {
            BreakAnimation {
                phase_elapsed_ms: 0,
                animation_frame: ((self.animation_frame + 1) % 4) as u32,
                ..ticked
            }
        } else {
            ticked
        }
    }

    /// A new break animation, at frame zero with nothing elapsed.
    pub fn new(activity: BreakActivity) -> (a: BreakAnimation)
        ensures
            a.activity == activity,
            a.phase_elapsed_ms == 0,
            a.total_elapsed_ms == 0,
            a.animation_frame == 0,
    {
        BreakAnimation {
            activity: activity,
            phase_elapsed_ms: 0,
            total_elapsed_ms: 0,
            animation_frame: 0,
        }
    }

    /// Advance the animation by `delta_ms`.
    pub fn update(&mut self, delta_ms: u64)
        ensures
            *final(self) == old(self).spec_updated(delta_ms),
    {
        self.phase_elapsed_ms = add_ms(self.phase_elapsed_ms, delta_ms);
        self.total_elapsed_ms = add_ms(self.total_elapsed_ms, delta_ms);

        if self.activity == BreakActivity::Stretch && self.phase_elapsed_ms >= 1000 {
            let ghost frame: int = self.animation_frame as int;
            let wrapped: u32 = self.animation_frame % 4;
            proof {
                assert((wrapped as int + 1) % 4 == (frame + 1) % 4) by (nonlinear_arith)
                    requires
                        wrapped as int == frame % 4 && 0 <= frame,
                ;
            }
            self.animation_frame = (wrapped + 1) % 4;
            self.phase_elapsed_ms = 0;
        }
    }

    /// Current animation frame, always one of the four positions after any
    /// number of updates from a fresh animation.
    pub fn get_frame(&self) -> (r: u32)
        ensures
            r == self.animation_frame,
    {
        self.animation_frame
    }

    /// Activity type.
    pub fn get_activity(&self) -> (r: BreakActivity)
        ensures
            r == self.activity,
    {
        self.activity
    }

    /// Total elapsed time across all updates, in milliseconds.
    pub fn total_elapsed(&self) -> (r: u64)
        ensures
            r == self.total_elapsed_ms,
    {
        self.total_elapsed_ms
    }
}

} // verus!
