//! FIFO depth and the errors around it.

use i2c_slave::periph::Peripheral;
use i2c_slave::regs::{I2cRegisters, I2C_FIFO_SIZE};
use i2c_slave::slave::{Config, Error, I2c};

#[test]
fn test_fifo_size_constant() {
    const EXPECTED_FIFO_SIZE: usize = 32;
    assert_eq!(I2C_FIFO_SIZE, EXPECTED_FIFO_SIZE);
}

#[test]
fn test_fifo_exceeded_error() {
    let error = Error::FifoExceeded;
    let display = error.to_string();

    assert!(display.to_lowercase().contains("fifo"));
}

#[test]
fn test_overflow_error() {
    let error = Error::TxFifoOverflow;
    let display = error.to_string();

    assert!(display.to_lowercase().contains("overflow"));
}

#[test]
fn test_underflow_error() {
    let error = Error::RxFifoUnderflow;
    let display = error.to_string();

    assert!(display.to_lowercase().contains("underflow"));
}

#[test]
fn document_fifo_capacity() {
    let mut slave = I2c::new(Peripheral::I2cExt0, I2cRegisters::new(), Config::default()).unwrap();
    assert_eq!(slave.write(&[0u8; 33]), Err(Error::FifoExceeded));
    assert_eq!(slave.write(&[0u8; 32]), Ok(()));
}

#[test]
fn document_fifo_reset() {
    // Creating the driver empties both FIFOs.
    let mut regs = I2cRegisters::new();
    regs.rx_fifo.extend_from_slice(&[1, 2, 3]);
    regs.tx_fifo.extend_from_slice(&[4, 5]);
    let slave = I2c::new(Peripheral::I2cExt0, regs, Config::default()).unwrap();
    assert!(slave.regs.rx_fifo.is_empty());
    assert!(slave.regs.tx_fifo.is_empty());
}

#[test]
fn document_fifo_full_behavior() {
    let mut regs = I2cRegisters::new();
    regs.tx_fifo.extend_from_slice(&[0u8; 32]);
    regs.write_data(9);
    assert!(regs.int_raw.txfifo_ovf);
    assert_eq!(regs.tx_fifo.len(), 32);
}

#[test]
fn document_fifo_empty_behavior() {
    let mut regs = I2cRegisters::new();
    let _ = regs.read_data();
    assert!(regs.int_raw.rxfifo_udf);
}
