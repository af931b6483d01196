//! Focus-session timing core: a pausable countdown timer and a
//! breathing-exercise phase engine, both driven by host-supplied
//! time values in milliseconds.

pub mod break_activity;
pub mod breathing;
pub mod saturating;
pub mod timer;

pub use break_activity::BreakActivity;
pub use break_activity::BreakAnimation;
pub use breathing::BreathPhase;
pub use breathing::BreathingExercise;
pub use breathing::BreathingPattern;
pub use timer::Timer;
pub use timer::TimerState;
