//! Sharing the driver with an interrupt handler.

use i2c_slave::periph::Peripheral;
use i2c_slave::regs::I2cRegisters;
use i2c_slave::slave::i2c::{async_handler, State};
use i2c_slave::slave::{Blocking, Config, Error, I2c};
use i2c_slave::task::{AtomicWaker, Poll};

fn assert_send<T: Send>() {}

#[test]
fn test_concurrent_safety() {
    assert_send::<I2c<Blocking>>();
    assert_send::<State>();
}

#[test]
fn test_future_traits() {
    let mut slave = I2c::new(Peripheral::I2cExt0, I2cRegisters::new(), Config::default())
        .unwrap()
        .into_async();
    let mut future = slave.read_async_start();
    let first = slave.poll_future(&mut future, 0);
    assert!(first.is_pending());
    slave.regs.int_raw.time_out = true;
    let second = slave.poll_future(&mut future, 1);
    assert!(second.is_ready());
    assert_eq!(second, Poll::Ready(Err(Error::Timeout)));
}

#[test]
fn document_task_model() {
    // A wake without a registered waker is lost; with one, it is delivered
    // once.
    let mut waker = AtomicWaker::new();
    waker.wake();
    assert!(!waker.wake_pending);
    waker.register();
    waker.wake();
    assert!(waker.wake_pending);
    assert!(!waker.registered);
}

#[test]
fn document_memory_usage() {}

#[test]
fn concurrent_tests_document_best_practices() {
    // The handler only masks interrupts and wakes; raw status stays for the
    // task to read.
    let mut regs = I2cRegisters::new();
    regs.int_ena.trans_complete = true;
    regs.int_raw.trans_complete = true;
    let mut state = State { waker: AtomicWaker::new() };
    state.waker.register();
    async_handler(&mut regs, &mut state);
    assert!(!regs.int_ena.trans_complete);
    assert!(regs.int_raw.trans_complete);
    assert!(state.waker.wake_pending);
}

#[test]
fn document_common_patterns() {}
