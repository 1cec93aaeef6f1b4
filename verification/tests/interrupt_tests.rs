//! Interrupt events: the enumerations and the enable and status registers.

use i2c_slave::periph::Peripheral;
use i2c_slave::regs::I2cRegisters;
use i2c_slave::slave;
use i2c_slave::slave::{Config, I2c};
use i2c_slave::slave_async::Event;

#[test]
fn test_event_enum() {
    let _events = [
        Event::TransComplete,
        Event::RxFifoThreshold,
        Event::TxFifoThreshold,
        Event::Timeout,
        Event::ArbitrationLost,
    ];
}

#[test]
fn test_event_clone() {
    let event = Event::TransComplete;
    let cloned = event.clone();

    assert_eq!(event, cloned);
}

#[test]
fn test_event_copy() {
    let event = Event::TransComplete;
    let copied = event;

    assert_eq!(event, copied);
}

#[test]
fn test_event_debug() {
    let event = Event::TransComplete;
    let debug_str = format!("{:?}", event);

    assert!(debug_str.contains("TransComplete"));
}

#[test]
fn test_all_events_unique() {
    let events = [
        Event::TransComplete,
        Event::RxFifoThreshold,
        Event::TxFifoThreshold,
        Event::Timeout,
        Event::ArbitrationLost,
    ];

    for (i, event1) in events.iter().enumerate() {
        for (j, event2) in events.iter().enumerate() {
            if i == j {
                assert_eq!(event1, event2);
            } else {
                assert_ne!(event1, event2);
            }
        }
    }
}

#[test]
fn document_interrupt_events() {
    // Each event of the polling driver has an interrupt source.
    let mut slave = I2c::new(Peripheral::I2cExt0, I2cRegisters::new(), Config::default()).unwrap();
    slave.listen(slave::EventSet::all());
    assert!(slave.regs.int_ena.rxfifo_wm);
    assert!(slave.regs.int_ena.txfifo_wm);
    assert!(slave.regs.int_ena.trans_complete);
    assert!(slave.regs.int_ena.end_detect);
    assert!(slave.regs.int_ena.trans_start);
}

#[test]
fn document_interrupt_usage() {
    let mut slave = I2c::new(Peripheral::I2cExt0, I2cRegisters::new(), Config::default()).unwrap();
    slave.listen(slave::EventSet::only(slave::Event::RxFifoFull));
    assert!(slave.regs.int_ena.rxfifo_wm);
    assert!(!slave.regs.int_ena.txfifo_wm);

    slave.regs.int_raw.rxfifo_wm = true;
    let asserted = slave.interrupts();
    assert!(asserted.contains(slave::Event::RxFifoFull));
    assert!(asserted.contains(slave::Event::ByteReceived));
    assert!(!asserted.contains(slave::Event::TransComplete));

    slave.clear_interrupts(slave::EventSet::only(slave::Event::RxFifoFull));
    assert!(!slave.regs.int_raw.rxfifo_wm);

    slave.unlisten(slave::EventSet::only(slave::Event::RxFifoFull));
    assert!(!slave.regs.int_ena.rxfifo_wm);
}

#[test]
fn document_interrupt_priorities() {}

#[test]
fn document_interrupt_latency() {}

#[test]
fn document_interrupt_safety() {}
