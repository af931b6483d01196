use pomo_tui::BreathPhase;
use pomo_tui::BreathingExercise;
use pomo_tui::BreathingPattern;

#[test]
fn test_breathing_exercise_ends_on_exhale_extended_exhale() {
    let mut exercise =
        BreathingExercise::new_with_target_cycles(BreathingPattern::ExtendedExhale, 1);

    // Run until completion or timeout
    for _ in 0..1000 {
        exercise.update(100);
        if exercise.should_complete_session() {
            break;
        }
    }

    // Should only complete on exhale or post-exhale transition
    assert!(exercise.should_complete_session());
    assert!(
        exercise.get_current_phase() == BreathPhase::Exhale
            || (exercise.get_current_phase() == BreathPhase::Transition
                && exercise.is_post_exhale_transition())
    );
}

#[test]
fn test_breathing_exercise_ends_on_exhale_coherent() {
    let mut exercise = BreathingExercise::new_with_target_cycles(BreathingPattern::Coherent, 1);

    // Run until completion or timeout
    for _ in 0..1000 {
        exercise.update(100);
        if exercise.should_complete_session() {
            break;
        }
    }

    assert!(exercise.should_complete_session());
    assert!(
        exercise.get_current_phase() == BreathPhase::Exhale
            || (exercise.get_current_phase() == BreathPhase::Transition
                && exercise.is_post_exhale_transition())
    );
}

#[test]
fn test_breathing_exercise_ends_on_exhale_short_box() {
    let mut exercise = BreathingExercise::new_with_target_cycles(BreathingPattern::ShortBox, 1);

    // Run until completion or timeout
    for _ in 0..1000 {
        exercise.update(100);
        if exercise.should_complete_session() {
            break;
        }
    }

    assert!(exercise.should_complete_session());
    // For short box, can end on exhale or rest (which comes after exhale)
    assert!(
        exercise.get_current_phase() == BreathPhase::Exhale
            || exercise.get_current_phase() == BreathPhase::Rest
    );
}

#[test]
fn test_breathing_exercise_ends_on_exhale_simple() {
    let mut exercise = BreathingExercise::new_with_target_cycles(BreathingPattern::Simple, 1);

    // Run until completion or timeout
    for _ in 0..1000 {
        exercise.update(100);
        if exercise.should_complete_session() {
            break;
        }
    }

    assert!(exercise.should_complete_session());
    assert!(
        exercise.get_current_phase() == BreathPhase::Exhale
            || (exercise.get_current_phase() == BreathPhase::Transition
                && exercise.is_post_exhale_transition())
    );
}

#[test]
fn test_countdown_cycles_behavior() {
    let exercise = BreathingExercise::new_with_target_cycles(BreathingPattern::ExtendedExhale, 5);

    // Initially should have 5 cycles remaining
    assert_eq!(exercise.get_remaining_cycles(), 5);
    assert_eq!(exercise.get_cycle_count(), 0);
    assert_eq!(exercise.get_target_cycles(), 5);
}

#[test]
fn test_countdown_cycles_progression() {
    let mut exercise =
        BreathingExercise::new_with_target_cycles(BreathingPattern::ExtendedExhale, 2);

    // Initially 2 cycles remaining
    assert_eq!(exercise.get_remaining_cycles(), 2);

    // Complete first cycle
    while exercise.get_cycle_count() < 1 {
        exercise.update(100);
    }

    // Should now have 1 cycle remaining
    assert_eq!(exercise.get_remaining_cycles(), 1);
    assert_eq!(exercise.get_cycle_count(), 1);

    // Run until ready to complete (should stop incrementing cycles)
    for _ in 0..1000 {
        exercise.update(100);
        if exercise.ready_to_complete {
            break;
        }
    }

    // Should now have 0 cycles remaining, and ready to complete
    // Note: cycle count stays at 1 because we don't increment when ready_to_complete is set
    assert_eq!(exercise.get_remaining_cycles(), 1);
    assert_eq!(exercise.get_cycle_count(), 1);
    assert!(exercise.ready_to_complete);
}

#[test]
fn test_should_not_complete_before_target_cycles() {
    let mut exercise =
        BreathingExercise::new_with_target_cycles(BreathingPattern::ExtendedExhale, 2);

    // Complete first cycle
    while exercise.get_cycle_count() < 1 {
        exercise.update(100);
    }

    // Should not complete yet, even if in good phase
    assert!(!exercise.should_complete_session());
    assert!(!exercise.ready_to_complete);

    // Run until ready to complete
    for _ in 0..1000 {
        exercise.update(100);
        if exercise.ready_to_complete {
            break;
        }
    }

    // Should now be ready to complete
    assert!(exercise.ready_to_complete);

    // And should complete when in a valid phase
    for _ in 0..100 {
        exercise.update(100);
        if exercise.should_complete_session() {
            break;
        }
    }

    assert!(exercise.should_complete_session());
}

#[test]
fn test_new_from_duration_calculates_cycles() {
    // Test with 90 second duration for ExtendedExhale (11.4s per cycle)
    let exercise = BreathingExercise::new_from_duration(BreathingPattern::ExtendedExhale, 90_000);

    // Should calculate approximately 8 cycles (90/11.4 = 7.89, rounded up to 8)
    assert_eq!(exercise.get_target_cycles(), 8);
    assert_eq!(exercise.get_remaining_cycles(), 8);
}

#[test]
fn test_new_from_duration_minimum_one_cycle() {
    // Very short duration should still get at least 1 cycle
    let exercise = BreathingExercise::new_from_duration(BreathingPattern::ExtendedExhale, 1_000);

    assert_eq!(exercise.get_target_cycles(), 1);
    assert_eq!(exercise.get_remaining_cycles(), 1);
}

#[test]
fn test_exercise_ends_only_on_exhale_phases() {
    // Test with a very short target (1 cycle) to quickly reach completion
    let mut exercise =
        BreathingExercise::new_with_target_cycles(BreathingPattern::ExtendedExhale, 1);

    // Track phases until completion
    let mut completion_phases = Vec::new();

    // Run until we get a completion signal or timeout
    for _ in 0..1000 {
        exercise.update(100);

        if exercise.should_complete_session() {
            completion_phases.push(exercise.get_current_phase());
            break;
        }
    }

    // Should have completed
    assert!(
        !completion_phases.is_empty(),
        "Exercise should complete within timeout"
    );

    // All completion phases should be valid (exhale or post-exhale transition)
    for phase in completion_phases {
        assert!(
            phase == BreathPhase::Exhale
                || (phase == BreathPhase::Transition && exercise.is_post_exhale_transition()),
            "Completion should only happen during exhale or post-exhale transition, got: {:?}",
            phase
        );
    }
}

#[test]
fn test_never_completes_during_inhale_phase() {
    for pattern in [
        BreathingPattern::ExtendedExhale,
        BreathingPattern::Coherent,
        BreathingPattern::ShortBox,
        BreathingPattern::Simple,
    ] {
        let mut exercise = BreathingExercise::new_with_target_cycles(pattern, 1);

        // Run until completion
        for _ in 0..1000 {
            exercise.update(100);

            // If exercise claims it should complete, verify it's not during inhale
            if exercise.should_complete_session() {
                assert_ne!(
                    exercise.get_current_phase(),
                    BreathPhase::Inhale,
                    "Pattern {:?} tried to complete during inhale phase!",
                    pattern
                );
                break;
            }
        }

        // Should have completed successfully
        assert!(
            exercise.should_complete_session(),
            "Pattern {:?} should complete",
            pattern
        );
    }
}

#[test]
fn test_reset_preserves_target_cycles() {
    let mut exercise =
        BreathingExercise::new_with_target_cycles(BreathingPattern::ExtendedExhale, 5);

    // Complete a cycle
    while exercise.get_cycle_count() < 1 {
        exercise.update(100);
    }

    assert_eq!(exercise.get_cycle_count(), 1);
    assert_eq!(exercise.get_remaining_cycles(), 4);

    // Reset
    exercise.reset();

    // Should preserve target cycles but reset progress
    assert_eq!(exercise.get_cycle_count(), 0);
    assert_eq!(exercise.get_target_cycles(), 5);
    assert_eq!(exercise.get_remaining_cycles(), 5);
    assert_eq!(exercise.get_current_phase(), BreathPhase::Inhale);
}
