//! Recovering from errors.

use i2c_slave::periph::Peripheral;
use i2c_slave::regs::I2cRegisters;
use i2c_slave::slave::{Config, Error, I2c};

#[test]
fn test_error_recovery_states() {
    let errors = [
        Error::ArbitrationLost,    // Recoverable: retry
        Error::Timeout,            // Recoverable: reset timeout
        Error::BusBusy,           // Recoverable: wait and retry
        Error::TxFifoOverflow,    // Recoverable: reset FIFO
        Error::RxFifoUnderflow,   // Recoverable: reset FIFO
        Error::FifoExceeded,      // Recoverable: use smaller buffer
    ];
    assert_eq!(errors.len(), 6);
}

#[test]
fn test_retry_logic() {
    const MAX_RETRIES: u32 = 3;
    const RETRY_DELAY_MS: u32 = 10;
    
    assert!(MAX_RETRIES > 0);
    assert!(RETRY_DELAY_MS > 0);
}

#[test]
fn document_error_recovery_strategy() {
    // After a failed load the driver takes the next write.
    let mut slave = I2c::new(Peripheral::I2cExt0, I2cRegisters::new(), Config::default()).unwrap();
    assert_eq!(slave.write(&[0u8; 40]), Err(Error::FifoExceeded));
    assert_eq!(slave.write(&[1, 2]), Ok(()));
    assert_eq!(slave.regs.tx_fifo, vec![1, 2]);
}

#[test]
fn document_non_recoverable_errors() {
}

#[test]
fn document_recovery_time() {
}

#[test]
fn document_recovery_best_practices() {
    // Reapplying the configuration empties the FIFOs and clears interrupts.
    let mut slave = I2c::new(Peripheral::I2cExt0, I2cRegisters::new(), Config::default()).unwrap();
    slave.regs.rx_fifo.push(1);
    slave.regs.int_raw.arbitration_lost = true;
    slave.apply_config(&Config::default()).unwrap();
    assert!(slave.regs.rx_fifo.is_empty());
    assert!(!slave.regs.int_raw.arbitration_lost);
}

#[test]
fn document_preventive_measures() {
}
