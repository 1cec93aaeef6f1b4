//! Asynchronous operation of the polling driver: interrupt-driven waits.

use i2c_slave::periph::Peripheral;
use i2c_slave::regs::I2cRegisters;
use i2c_slave::slave::i2c::async_handler;
use i2c_slave::slave::{Async, Blocking, Config, Error, I2c, Info};
use i2c_slave::task::Poll;

fn async_driver() -> I2c<Async> {
    I2c::<Blocking>::new(Peripheral::I2cExt0, I2cRegisters::new(), Config::default())
        .unwrap()
        .into_async()
}

#[test]
fn test_async_mode_type() {
    let slave = async_driver();
    assert_eq!(slave.interrupt.bound, Some(slave.info.async_handler.id));
    assert_eq!(slave.interrupt.enabled, Some(slave.info.async_handler.priority));
}

#[test]
fn test_async_builder_pattern() {
    let slave = async_driver().with_sda(4).with_scl(5);
    assert!(slave.config.sda_pin.pin.is_some());
    assert!(slave.config.scl_pin.pin.is_some());
    let blocking = slave.into_blocking();
    assert_eq!(blocking.interrupt.enabled, None);
}

#[test]
fn test_async_error_types() {
    let mut slave = async_driver();
    assert_eq!(slave.write_async_start(&[0u8; 33]).unwrap_err(), Error::FifoExceeded);

    let mut future = slave.read_async_start();
    slave.regs.int_raw.arbitration_lost = true;
    assert_eq!(slave.poll_future(&mut future, 0), Poll::Ready(Err(Error::ArbitrationLost)));
}

#[test]
fn document_async_advantages() {
    // A wait that has nothing to report is pending and leaves the waker
    // registered for the interrupt handler.
    let mut slave = async_driver();
    let mut future = slave.read_async_start();
    assert_eq!(slave.poll_future(&mut future, 0), Poll::Pending);
    assert!(slave.state.waker.registered);
}

#[test]
fn document_async_requirements() {
    let mut slave = async_driver();
    let mut future = slave.read_async_start();
    assert!(slave.regs.int_ena.rxfifo_wm);
    assert!(slave.regs.int_ena.arbitration_lost);
    assert!(slave.regs.int_ena.time_out);
    assert_eq!(slave.poll_future(&mut future, 0), Poll::Pending);

    // The interrupt masks everything and wakes the task.
    slave.regs.int_raw.rxfifo_wm = true;
    async_handler(&mut slave.regs, &mut slave.state);
    assert!(!slave.regs.int_ena.rxfifo_wm);
    assert!(slave.state.waker.wake_pending);

    assert_eq!(slave.poll_future(&mut future, 1), Poll::Ready(Ok(())));
    slave.regs.rx_fifo.extend_from_slice(&[1, 2]);
    let mut buffer = [0u8; 4];
    assert_eq!(slave.read_async_finish(&mut buffer), 2);
    assert_eq!(buffer, [1, 2, 0, 0]);
}

#[test]
fn document_async_vs_blocking() {
    let mut slave = async_driver();
    let mut future = slave.write_async_start(&[7, 8]).unwrap();
    assert_eq!(slave.regs.tx_fifo, vec![7, 8]);
    assert!(slave.regs.int_ena.txfifo_wm);
    slave.regs.int_raw.txfifo_wm = true;
    assert_eq!(slave.poll_future(&mut future, 0), Poll::Ready(Ok(())));
    assert!(future.finished);
}

#[test]
fn async_operations_document_embassy_integration() {
    // Each controller has its own interrupt routine.
    let first = Info::for_peripheral(Peripheral::I2cExt0).async_handler;
    let second = Info::for_peripheral(Peripheral::I2cExt1).async_handler;
    assert_ne!(first.id, second.id);
}
