//! Stress test parameters.

#[test]
fn test_stress_test_parameters() {
    const SHORT_STRESS_ITERATIONS: usize = 1_000;
    const MEDIUM_STRESS_ITERATIONS: usize = 10_000;
    const LONG_STRESS_ITERATIONS: usize = 100_000;
    const EXTENDED_STRESS_HOURS: usize = 24;
    assert!(EXTENDED_STRESS_HOURS > 0);
    assert!(SHORT_STRESS_ITERATIONS < MEDIUM_STRESS_ITERATIONS);
    assert!(MEDIUM_STRESS_ITERATIONS < LONG_STRESS_ITERATIONS);
}

#[test]
fn document_stress_test_purpose() {
}

#[test]
fn document_recommended_stress_tests() {
}

#[test]
fn document_failure_modes() {
}

#[test]
fn document_stress_test_metrics() {
}

#[test]
fn document_when_to_stress_test() {
}
