//! The driver beside other peripherals.

#[test]
fn test_peripheral_independence() {
}

#[test]
fn test_shared_resources() {
}

#[test]
fn test_pin_constraints() {
}

#[test]
fn document_peripheral_interactions() {
}

#[test]
fn peripheral_tests_document_best_practices() {
}

#[test]
fn document_common_issues() {
}

#[test]
fn document_wifi_bluetooth_considerations() {
}

#[test]
fn document_resource_budgeting() {
}
