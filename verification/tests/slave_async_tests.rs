//! The interrupt-driven driver against a modelled register block.

use i2c_slave::periph::{Peripheral, Priority};
use i2c_slave::regs::I2cRegisters;
use i2c_slave::slave_async::future::{ReadFuture, WriteFuture};
use i2c_slave::slave_async::{
    Config, ConfigError, Error, I2cAddress, SlaveAsync, TransactionState,
};
use i2c_slave::task::Poll;

fn driver() -> SlaveAsync {
    SlaveAsync::new(Peripheral::I2cExt0, I2cRegisters::new(), Config::default()).unwrap()
}

#[test]
fn config_validation() {
    assert_eq!(Config::default().validate(), Ok(()));
    assert_eq!(
        Config::default().with_address(I2cAddress::SevenBit(0x80)).validate(),
        Err(ConfigError::AddressInvalid)
    );
    assert_eq!(Config::default().with_rx_fifo_threshold(33).validate(), Err(ConfigError::InvalidFifoThreshold));
    assert_eq!(Config::default().with_tx_fifo_threshold(32).validate(), Ok(()));
    // The address is checked first.
    assert_eq!(
        Config::default().with_address(I2cAddress::TenBit(0x400)).with_rx_fifo_threshold(40).validate(),
        Err(ConfigError::AddressInvalid)
    );
}

#[test]
fn new_refuses_invalid_configuration() {
    let bad = Config::default().with_tx_fifo_threshold(200);
    assert_eq!(
        SlaveAsync::new(Peripheral::I2cExt0, I2cRegisters::new(), bad).err(),
        Some(ConfigError::InvalidFifoThreshold)
    );
}

#[test]
fn new_listens_to_the_essential_events() {
    let slave = driver();
    assert!(slave.regs.int_ena.trans_complete);
    assert!(slave.regs.int_ena.rxfifo_wm);
    assert!(slave.regs.int_ena.time_out);
    assert!(!slave.regs.int_ena.txfifo_wm);
    assert_eq!(slave.interrupt.enabled, Some(i2c_slave::slave_async::i2c::START_PRIORITY));
    assert_eq!(slave.state.transaction_state, TransactionState::Idle);
    assert_eq!(slave.get_interrupt_counter(), 0);
}

#[test]
fn read_collects_bytes_until_the_transaction_completes() {
    let mut slave = driver();
    assert_eq!(slave.read_async_start(0).err(), Some(Error::ZeroLengthInvalid));
    let mut future = slave.read_async_start(8).unwrap();
    let mut buffer = [0u8; 8];

    assert_eq!(slave.poll_read(&mut future, &mut buffer), Poll::Pending);
    assert!(slave.state.rx_waker.registered);

    slave.regs.rx_fifo.extend_from_slice(&[1, 2, 3]);
    slave.regs.int_raw.rxfifo_wm = true;
    slave.handle_interrupt();
    assert!(slave.state.rx_waker.wake_pending);
    assert_eq!(slave.poll_read(&mut future, &mut buffer), Poll::Pending);
    assert_eq!(future.bytes_read, 3);
    assert_eq!(slave.state.transaction_state, TransactionState::Receiving { bytes_received: 3 });

    slave.regs.rx_fifo.extend_from_slice(&[4, 5]);
    slave.regs.int_raw.trans_complete = true;
    slave.handle_interrupt();
    assert_eq!(slave.state.transaction_state, TransactionState::Complete { bytes_transferred: 3 });
    assert_eq!(slave.poll_read(&mut future, &mut buffer), Poll::Ready(Ok(3)));
    assert_eq!(&buffer[..5], &[1, 2, 3, 4, 5]);
    assert_eq!(slave.get_interrupt_counter(), 2);
}

#[test]
fn bus_error_reaches_the_reader() {
    let mut slave = driver();
    let mut future = slave.read_async_start(4).unwrap();
    let mut buffer = [0u8; 4];
    slave.regs.int_raw.arbitration_lost = true;
    slave.handle_interrupt();
    assert!(!slave.regs.int_raw.arbitration_lost);
    assert_eq!(slave.poll_read(&mut future, &mut buffer), Poll::Ready(Err(Error::ArbitrationLost)));
    assert_eq!(slave.state.last_error, None);
}

#[test]
fn rx_overflow_reaches_the_reader() {
    let mut slave = driver();
    let mut future = ReadFuture { bytes_read: 0 };
    let mut buffer = [0u8; 4];
    slave.regs.int_raw.rxfifo_ovf = true;
    slave.handle_interrupt();
    assert_eq!(slave.poll_read(&mut future, &mut buffer), Poll::Ready(Err(Error::RxFifoOverflow)));
}

#[test]
fn write_loads_the_fifo_and_completes() {
    let mut slave = driver();
    assert_eq!(slave.write_async_start(&[]).err(), Some(Error::ZeroLengthInvalid));

    let data: Vec<u8> = (0..40).collect();
    let mut future = slave.write_async_start(&data).unwrap();
    assert_eq!(future, WriteFuture { bytes_written: 32 });
    assert_eq!(slave.regs.tx_fifo, data[..32].to_vec());
    assert!(slave.regs.scl_stretch_conf.slave_scl_stretch_clr);

    // The master drains the FIFO; the rest is loaded on the next poll.
    slave.regs.tx_fifo.clear();
    assert_eq!(slave.poll_write(&mut future, &data), Poll::Pending);
    assert_eq!(future.bytes_written, 40);
    assert_eq!(slave.regs.tx_fifo, data[32..].to_vec());

    slave.regs.int_raw.trans_complete = true;
    slave.handle_interrupt();
    assert_eq!(slave.state.transaction_state, TransactionState::Complete { bytes_transferred: 40 });
    assert_eq!(slave.poll_write(&mut future, &data), Poll::Ready(Ok(())));
    assert!(slave.regs.tx_fifo.is_empty());
}

#[test]
fn tx_underflow_reaches_the_writer() {
    let mut slave = driver();
    let mut future = slave.write_async_start(&[1]).unwrap();
    slave.regs.int_raw.rxfifo_udf = true;
    slave.handle_interrupt();
    assert_eq!(slave.poll_write(&mut future, &[1]), Poll::Ready(Err(Error::TxFifoUnderflow)));
}

#[test]
fn apply_config_changes_nothing_when_refused() {
    let mut slave = driver();
    let before = slave.config;
    assert_eq!(
        slave.apply_config(&Config::default().with_address(I2cAddress::SevenBit(0x90))),
        Err(ConfigError::AddressInvalid)
    );
    assert_eq!(slave.config, before);
    assert_eq!(
        slave.apply_config(&Config::default().with_rx_fifo_threshold(64)),
        Err(ConfigError::InvalidFifoThreshold)
    );
    assert_eq!(slave.config.config.rx_fifo_threshold, 64);
    assert_eq!(slave.apply_config(&Config::default().with_rx_fifo_threshold(8)), Ok(()));
    assert_eq!(slave.regs.fifo_conf.rxfifo_wm_thrhd, 8);
}

#[test]
fn deinit_silences_the_controller() {
    let mut slave = driver();
    slave.state.rx_index = 5;
    slave.regs.int_raw.trans_complete = true;
    slave.deinit();
    assert!(!slave.regs.int_ena.trans_complete);
    assert!(!slave.regs.int_raw.trans_complete);
    assert_eq!(slave.state.rx_index, 0);
    assert_eq!(slave.state.transaction_state, TransactionState::Idle);
}

#[test]
fn interrupt_counter_wraps() {
    let mut slave = driver();
    slave.state.interrupt_count = u32::MAX;
    slave.handle_interrupt();
    assert_eq!(slave.get_interrupt_counter(), 0);
}

#[test]
fn async_error_descriptions() {
    assert!(Error::BufferTooSmall.to_string().to_lowercase().contains("buffer"));
    assert!(Error::RxFifoOverflow.to_string().contains("overflow"));
    assert!(ConfigError::InvalidFifoThreshold.to_string().to_lowercase().contains("threshold"));
}

#[test]
fn async_register_address_is_reported() {
    let mut slave = driver();
    slave.regs.rxfifo_raddr = 0x21;
    assert_eq!(slave.read_register_address(), 0x21);
}

#[test]
fn interrupt_priority_is_set() {
    let slave = driver().with_interrupt_priority(Priority::Priority5);
    assert_eq!(slave.interrupt.enabled, Some(Priority::Priority5));
    assert_eq!(slave.config.config, Config::default());
    let off = slave.with_interrupt_priority(Priority::Disabled);
    assert_eq!(off.interrupt.enabled, None);
    let still_off = off.with_interrupt_priority(Priority::Priority2);
    assert_eq!(still_off.interrupt.enabled, None);
}

#[test]
fn interrupt_counter_counts_handled_interrupts() {
    let mut slave = driver();
    for _ in 0..5 {
        slave.handle_interrupt();
    }
    assert_eq!(slave.get_interrupt_counter(), 5);
}
