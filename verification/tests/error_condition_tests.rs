//! Error conditions of the polling driver.

use i2c_slave::slave::Error;

#[test]
fn test_error_types() {
    let errors = [
        Error::ArbitrationLost,
        Error::Timeout,
        Error::BusBusy,
        Error::TxFifoOverflow,
        Error::RxFifoUnderflow,
        Error::FifoExceeded,
    ];

    assert_eq!(errors.len(), 6);
}

#[test]
fn error_condition_tests_test_error_display() {
    let error = Error::ArbitrationLost;
    let display = error.to_string();

    assert!(!display.is_empty());
    assert!(display.to_lowercase().contains("arbitration"));
}

#[test]
fn error_condition_tests_test_error_debug() {
    let error = Error::Timeout;
    let debug = format!("{:?}", error);

    assert!(!debug.is_empty());
}

#[test]
fn error_condition_tests_test_error_clone() {
    let error = Error::BusBusy;
    let cloned = error.clone();

    assert_eq!(error, cloned);
}

#[test]
fn error_condition_tests_test_error_copy() {
    let error = Error::TxFifoOverflow;
    let copied = error;

    assert_eq!(error, copied);
}

#[test]
fn test_all_errors_unique() {
    let errors = [
        Error::ArbitrationLost,
        Error::Timeout,
        Error::BusBusy,
        Error::TxFifoOverflow,
        Error::RxFifoUnderflow,
        Error::FifoExceeded,
    ];

    for (i, err1) in errors.iter().enumerate() {
        for (j, err2) in errors.iter().enumerate() {
            if i == j {
                assert_eq!(err1, err2);
            } else {
                assert_ne!(err1, err2);
            }
        }
    }
}

#[test]
fn test_error_exhaustiveness() {
    let error = Error::ArbitrationLost;

    let description = match error {
        Error::ArbitrationLost => "arbitration",
        Error::Timeout => "timeout",
        Error::BusBusy => "busy",
        Error::TxFifoOverflow => "tx overflow",
        Error::RxFifoUnderflow => "rx underflow",
        Error::FifoExceeded => "fifo exceeded",
        _ => "other",
    };

    assert_eq!(description, "arbitration");
}

#[test]
fn document_error_categories() {
    assert!(Error::ArbitrationLost.to_string().contains("arbitration"));
    assert!(Error::BusBusy.to_string().contains("busy"));
    assert!(Error::Timeout.to_string().contains("timeout"));
    assert!(Error::TxFifoOverflow.to_string().contains("overflow"));
    assert!(Error::RxFifoUnderflow.to_string().contains("underflow"));
    assert!(Error::FifoExceeded.to_string().contains("FIFO"));
}

#[test]
fn document_error_recovery() {}

#[test]
fn document_when_errors_occur() {}

#[test]
fn document_error_prevention() {}

#[test]
fn document_critical_errors() {}
