//! Reads and writes of the polling driver against a modelled register block.

use i2c_slave::periph::Peripheral;
use i2c_slave::regs::I2cRegisters;
use i2c_slave::slave::driver::{RxWaitPhase, RxWaitStep};
use i2c_slave::slave::{Blocking, Config, Error, I2c};

fn driver(config: Config) -> I2c<Blocking> {
    I2c::new(Peripheral::I2cExt0, I2cRegisters::new(), config).unwrap()
}

#[test]
fn test_zero_length_read() {
    let mut slave = driver(Config::default());
    let empty_buffer: &mut [u8] = &mut [];

    assert_eq!(slave.read_start(empty_buffer.len(), 0), Err(Error::ZeroLengthInvalid));
}

#[test]
fn test_zero_length_write() {
    let mut slave = driver(Config::default());
    let empty_data: &[u8] = &[];

    assert_eq!(slave.write(empty_data), Err(Error::ZeroLengthInvalid));
    assert!(slave.regs.tx_fifo.is_empty());
}

#[test]
fn test_read_blocks_until_data() {
    let mut slave = driver(Config::default());
    let wait = slave.read_start(4, 0).unwrap();

    // Nothing received and no STOP yet: the wait goes on.
    assert_eq!(slave.read_poll(wait, 10), RxWaitStep::Pending(wait));

    // Bytes arrive, then the STOP that ends the master's write.
    slave.regs.rx_fifo.extend_from_slice(&[1, 2, 3]);
    let wait = match slave.read_poll(wait, 20) {
        RxWaitStep::Pending(w) => w,
        other => panic!("unexpected {:?}", other),
    };
    assert_eq!(wait.phase, RxWaitPhase::AwaitingStop { wait_start_us: 20 });
    slave.regs.int_raw.trans_complete = true;
    assert_eq!(slave.read_poll(wait, 30), RxWaitStep::Done(Ok(false)));
    assert!(!slave.regs.int_raw.trans_complete);

    let mut buffer = [0u8; 4];
    assert_eq!(slave.read_finish(&mut buffer), 3);
    assert_eq!(buffer, [1, 2, 3, 0]);
    assert!(slave.regs.rx_fifo.is_empty());
}

#[test]
fn test_write_makes_data_available() {
    let mut slave = driver(Config::default());

    assert_eq!(slave.write(&[0xAA, 0xBB, 0xCC]), Ok(()));
    assert_eq!(slave.regs.tx_fifo, vec![0xAA, 0xBB, 0xCC]);
}

#[test]
fn test_fifo_overflow_behavior() {
    let mut slave = driver(Config::default());

    let too_long = [0u8; 33];
    assert_eq!(slave.write(&too_long), Err(Error::FifoExceeded));
    assert!(slave.regs.tx_fifo.is_empty());

    let full = [7u8; 32];
    assert_eq!(slave.write(&full), Ok(()));
    assert_eq!(slave.regs.tx_fifo.len(), 32);
}

#[test]
fn test_write_read_atomic_behavior() {
    let mut slave = driver(Config::default());
    let wait = slave.read_start(2, 0).unwrap();

    // The register address arrives and no STOP follows: a repeated START.
    slave.regs.rx_fifo.push(0x10);
    let wait = match slave.read_poll(wait, 100) {
        RxWaitStep::Pending(w) => w,
        other => panic!("unexpected {:?}", other),
    };
    assert_eq!(slave.read_poll(wait, 100 + 1000), RxWaitStep::Pending(wait));
    assert_eq!(slave.read_poll(wait, 100 + 1001), RxWaitStep::Done(Ok(true)));
}

#[test]
fn test_write_read_timing() {
    let mut slave = driver(Config::default().with_timeout_ms(1));
    let wait = slave.read_start(1, 5_000).unwrap();
    assert_eq!(wait.timeout_us, 1_000);

    assert_eq!(slave.read_poll(wait, 6_000), RxWaitStep::Pending(wait));
    assert_eq!(slave.read_poll(wait, 6_001), RxWaitStep::Done(Err(Error::Timeout)));
}

#[test]
fn read_reports_arbitration_loss() {
    let mut slave = driver(Config::default());
    let wait = slave.read_start(1, 0).unwrap();
    slave.regs.int_raw.arbitration_lost = true;

    assert_eq!(slave.read_poll(wait, 1), RxWaitStep::Done(Err(Error::ArbitrationLost)));
    assert!(!slave.regs.int_raw.arbitration_lost);
}

#[test]
fn read_reports_bus_timeout() {
    let mut slave = driver(Config::default());
    let wait = slave.read_start(1, 0).unwrap();
    slave.regs.int_raw.time_out = true;

    assert_eq!(slave.read_poll(wait, 1), RxWaitStep::Done(Err(Error::Timeout)));
}

#[test]
fn read_finish_takes_at_most_the_buffer() {
    let mut slave = driver(Config::default());
    slave.regs.rx_fifo.extend_from_slice(&[9, 8, 7, 6]);

    let mut buffer = [0u8; 2];
    assert_eq!(slave.read_finish(&mut buffer), 2);
    assert_eq!(buffer, [9, 8]);
    assert_eq!(slave.regs.rx_fifo, vec![7, 6]);
}

#[test]
fn read_finish_clears_stale_response() {
    let mut slave = driver(Config::default().with_clear_tx_on_write(true));
    slave.regs.tx_fifo.extend_from_slice(&[1, 2]);
    slave.regs.rx_fifo.push(5);

    let mut buffer = [0u8; 1];
    assert_eq!(slave.read_finish(&mut buffer), 1);
    assert!(slave.regs.tx_fifo.is_empty());
}

#[test]
fn write_overflowing_a_partly_full_fifo() {
    let mut slave = driver(Config::default().with_clear_tx_on_write(true));
    slave.regs.tx_fifo.extend_from_slice(&[0u8; 30]);

    assert_eq!(slave.write(&[1, 2, 3]), Err(Error::TxFifoOverflow));
    assert_eq!(slave.regs.tx_fifo.len(), 32);
    assert_eq!(&slave.regs.tx_fifo[30..], &[1, 2]);
}

#[test]
fn register_address_is_reported() {
    let mut slave = driver(Config::default());
    slave.regs.rxfifo_raddr = 0x42;

    assert_eq!(slave.read_register_address(), 0x42);
}

#[test]
fn wait_ends_after_timeout_even_with_late_bytes() {
    let mut slave = driver(Config::default().with_timeout_ms(1));
    let wait = slave.read_start(1, 0).unwrap();
    slave.regs.rx_fifo.push(1);
    // Past the timeout, bytes that just arrived earn one more step.
    let next = match slave.read_poll(wait, 2_000) {
        RxWaitStep::Pending(w) => w,
        other => panic!("unexpected {:?}", other),
    };
    assert_eq!(slave.read_poll(next, 2_000), RxWaitStep::Done(Err(Error::Timeout)));
}

#[test]
fn read_clears_stale_response_even_when_the_wait_fails() {
    let mut slave = driver(Config::default().with_clear_tx_on_write(true).with_timeout_ms(1));
    slave.regs.tx_fifo.extend_from_slice(&[0xDE, 0xAD]);
    let wait = slave.read_start(4, 0).unwrap();
    assert!(slave.regs.tx_fifo.is_empty());
    assert_eq!(slave.read_poll(wait, 5_000), RxWaitStep::Done(Err(Error::Timeout)));
    assert!(slave.regs.tx_fifo.is_empty());
}

#[test]
fn read_keeps_queued_response_without_auto_clear() {
    let mut slave = driver(Config::default());
    slave.regs.tx_fifo.extend_from_slice(&[0xDE, 0xAD]);
    let _ = slave.read_start(4, 0).unwrap();
    assert_eq!(slave.regs.tx_fifo, vec![0xDE, 0xAD]);
}
