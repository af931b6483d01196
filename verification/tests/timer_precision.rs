//! Precision checks on the millisecond accounting that the timer relies on.

use std::time::Duration;

#[test]
fn test_timer_precision_types() {
    // Test that Duration types provide sufficient precision
    let duration = Duration::from_nanos(1);
    assert_eq!(duration.as_nanos(), 1);

    let duration_ms = Duration::from_millis(1);
    assert_eq!(duration_ms.as_millis(), 1);

    // Test precision calculation
    let session_duration = Duration::from_secs(25 * 60); // 25 minutes
    let max_drift = Duration::from_millis(100); // 100ms requirement

    let drift_percentage =
        (max_drift.as_millis() as f64 / session_duration.as_millis() as f64) * 100.0;

    // Should be less than 0.1% drift over 25 minutes
    assert!(
        drift_percentage < 0.1,
        "Drift percentage too high: {:.3}%",
        drift_percentage
    );
}
