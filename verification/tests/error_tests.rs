//! Error types of the polling slave driver and their descriptions.

use i2c_slave::slave::{ConfigError, Error, I2cAddress};

#[test]
fn error_tests_test_error_display() {
    let errors = vec![
        (Error::FifoExceeded, "FIFO"),
        (Error::AcknowledgeCheckFailed, "acknowledgment"),
        (Error::Timeout, "timeout"),
        (Error::ArbitrationLost, "arbitration"),
        (Error::ExecutionIncomplete, "execution"),
        (Error::ZeroLengthInvalid, "Zero length"),
        (Error::BusBusy, "busy"),
        (Error::TxFifoOverflow, "overflow"),
        (Error::RxFifoUnderflow, "underflow"),
    ];

    for (error, expected_text) in errors {
        let display = error.to_string();
        assert!(
            display.contains(expected_text),
            "Error '{}' should contain '{}'",
            display,
            expected_text
        );
    }
}

#[test]
fn test_address_invalid_error_display() {
    let addr = I2cAddress::SevenBit(0x55);
    let error = Error::AddressInvalid(addr);
    let display = error.to_string();

    assert!(display.contains("address"));
    assert!(display.contains("invalid") || display.contains("Address"));
}

#[test]
fn address_invalid_display_names_the_address() {
    let display = Error::AddressInvalid(I2cAddress::SevenBit(0x55)).to_string();
    assert_eq!(display, "The given address (SevenBit(85)) is invalid");
}

#[test]
fn error_tests_test_error_debug() {
    let error = Error::Timeout;
    let debug_str = format!("{:?}", error);

    assert!(debug_str.contains("Timeout"));
}

#[test]
fn error_tests_test_error_clone() {
    let error1 = Error::Timeout;
    let error2 = error1.clone();

    assert_eq!(error1, error2);
}

#[test]
fn error_tests_test_error_copy() {
    let error1 = Error::Timeout;
    let error2 = error1;

    assert_eq!(error1, error2);
}

#[test]
fn test_error_equality() {
    assert_eq!(Error::Timeout, Error::Timeout);
    assert_ne!(Error::Timeout, Error::ArbitrationLost);
}

#[test]
fn test_config_error_display() {
    let error = ConfigError::AddressInvalid;
    let display = error.to_string();

    assert!(display.contains("address") || display.contains("Address"));
    assert!(display.contains("invalid") || display.contains("Invalid"));
}

#[test]
fn test_config_error_debug() {
    let error = ConfigError::AddressInvalid;
    let debug_str = format!("{:?}", error);

    assert!(debug_str.contains("AddressInvalid"));
}

#[test]
fn test_config_error_clone() {
    let error1 = ConfigError::AddressInvalid;
    let error2 = error1.clone();

    assert_eq!(error1, error2);
}

#[test]
fn test_config_error_copy() {
    let error1 = ConfigError::AddressInvalid;
    let error2 = error1;

    assert_eq!(error1, error2);
}

#[test]
fn test_zero_length_error() {
    let error = Error::ZeroLengthInvalid;
    let display = error.to_string();

    assert!(display.to_lowercase().contains("zero") || display.contains("0"));
    assert!(display.to_lowercase().contains("length"));
}

#[test]
fn test_fifo_errors() {
    let overflow = Error::TxFifoOverflow;
    let underflow = Error::RxFifoUnderflow;
    let exceeded = Error::FifoExceeded;

    assert_ne!(overflow, underflow);
    assert_ne!(overflow, exceeded);
    assert_ne!(underflow, exceeded);
}

#[test]
fn test_error_variants_count() {
    let errors = vec![
        Error::FifoExceeded,
        Error::AcknowledgeCheckFailed,
        Error::Timeout,
        Error::ArbitrationLost,
        Error::ExecutionIncomplete,
        Error::ZeroLengthInvalid,
        Error::AddressInvalid(I2cAddress::SevenBit(0x55)),
        Error::BusBusy,
        Error::TxFifoOverflow,
        Error::RxFifoUnderflow,
    ];

    let displays: Vec<String> = errors.iter().map(|e| e.to_string()).collect();
    assert_eq!(displays.len(), 10, "Should have 10 error variants");
}

#[test]
fn error_descriptions_are_distinct() {
    let errors = [
        Error::FifoExceeded,
        Error::AcknowledgeCheckFailed,
        Error::Timeout,
        Error::ArbitrationLost,
        Error::ExecutionIncomplete,
        Error::ZeroLengthInvalid,
        Error::AddressInvalid(I2cAddress::SevenBit(0x55)),
        Error::BusBusy,
        Error::TxFifoOverflow,
        Error::RxFifoUnderflow,
    ];
    for i in 0..errors.len() {
        for j in (i + 1)..errors.len() {
            assert_ne!(errors[i].to_string(), errors[j].to_string());
        }
    }
}

#[test]
fn address_messages_name_the_address() {
    assert_eq!(
        Error::AddressInvalid(I2cAddress::TenBit(1023)).to_string(),
        "The given address (TenBit(1023)) is invalid"
    );
    assert_ne!(
        Error::AddressInvalid(I2cAddress::SevenBit(5)).to_string(),
        Error::AddressInvalid(I2cAddress::SevenBit(50)).to_string()
    );
}
