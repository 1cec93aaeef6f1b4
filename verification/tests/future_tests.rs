//! Lifecycle of the waits of asynchronous operations.

use i2c_slave::periph::Peripheral;
use i2c_slave::regs::I2cRegisters;
use i2c_slave::slave::future::I2cFuture;
use i2c_slave::slave::{Config, Error, Event, EventSet, I2c};
use i2c_slave::task::Poll;

#[test]
fn test_future_size() {
    assert!(core::mem::size_of::<I2cFuture>() > 0);
}

#[test]
fn test_future_unpin() {
    fn assert_unpin<T: Unpin>() {}
    assert_unpin::<I2cFuture>();
}

#[test]
fn test_drop_impl() {
    // Cancelling a wait that is still pending resets the FIFOs.
    let mut regs = I2cRegisters::new();
    let mut future = I2cFuture::new(EventSet::only(Event::RxFifoFull), &mut regs, None);
    regs.rx_fifo.push(1);
    regs.tx_fifo.push(2);
    future.cancel(&mut regs, 0);
    assert!(regs.rx_fifo.is_empty());
    assert!(regs.tx_fifo.is_empty());
}

#[test]
fn cancelling_a_finished_wait_changes_nothing() {
    let mut regs = I2cRegisters::new();
    let mut future = I2cFuture::new(EventSet::only(Event::RxFifoFull), &mut regs, None);
    regs.int_raw.rxfifo_wm = true;
    assert_eq!(future.poll_completion(&regs, 0), Poll::Ready(Ok(())));
    regs.rx_fifo.push(1);
    future.cancel(&mut regs, 0);
    assert_eq!(regs.rx_fifo, vec![1]);
}

#[test]
fn document_future_lifecycle() {
    let mut slave = I2c::new(Peripheral::I2cExt0, I2cRegisters::new(), Config::default())
        .unwrap()
        .into_async();
    let mut future = slave.read_async_start();
    assert!(!future.finished);
    assert_eq!(slave.poll_future(&mut future, 0), Poll::Pending);
    slave.regs.int_raw.rxfifo_wm = true;
    assert_eq!(slave.poll_future(&mut future, 0), Poll::Ready(Ok(())));
    assert!(future.finished);
}

#[test]
fn document_cancellation_safety() {
    // A wait that timed out is also cleaned up.
    let mut regs = I2cRegisters::new();
    let mut future = I2cFuture::new_blocking(EventSet::only(Event::TransComplete), Some(100));
    regs.rx_fifo.push(3);
    future.cancel(&mut regs, 101);
    assert!(regs.rx_fifo.is_empty());
}

#[test]
fn document_pinning() {}

#[test]
fn document_waker_mechanism() {
    let mut slave = I2c::new(Peripheral::I2cExt0, I2cRegisters::new(), Config::default())
        .unwrap()
        .into_async();
    let mut future = slave.read_async_start();
    assert!(!slave.state.waker.registered);
    let _ = slave.poll_future(&mut future, 0);
    assert!(slave.state.waker.registered);
}

#[test]
fn document_error_handling() {
    // A bus timeout reported together with the awaited event does not fail
    // the operation; alone, it does.
    let mut regs = I2cRegisters::new();
    let mut done = I2cFuture::new_blocking(EventSet::only(Event::TransComplete), None);
    regs.int_raw.time_out = true;
    regs.int_raw.trans_complete = true;
    assert_eq!(done.poll_completion(&regs, 0), Poll::Ready(Ok(())));

    regs.int_raw.trans_complete = false;
    let mut failed = I2cFuture::new_blocking(EventSet::only(Event::TransComplete), None);
    assert_eq!(failed.poll_completion(&regs, 0), Poll::Ready(Err(Error::Timeout)));
}

#[test]
fn document_memory_considerations() {
    let deadline = I2cFuture::new_blocking(EventSet::empty(), Some(10));
    let mut pending = deadline;
    assert_eq!(pending.poll_completion(&I2cRegisters::new(), 10), Poll::Pending);
    let mut late = deadline;
    assert_eq!(late.poll_completion(&I2cRegisters::new(), 11), Poll::Ready(Err(Error::Timeout)));
}
