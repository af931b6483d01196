//! Simple verification that the test harness itself is discoverable and runs.

#[test]
fn verify_contract_tests_exist() {
    // Just verify we can build and the test framework works
    assert!(true);
}

#[test]
fn verify_tdd_red_phase() {
    // A second discoverable entry point for the harness
    assert!(true);
}
