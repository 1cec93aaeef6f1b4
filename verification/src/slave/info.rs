//! Peripheral description and the mapping of events onto interrupt bits.

use vstd::prelude::*;

use crate::periph::{InterruptHandler, Peripheral, Priority, Signal};
use crate::regs::{I2cRegisters, IntBits, RegisterState};

use super::event::{Event, EventSet};

verus! {

/// Identifier of the asynchronous interrupt routine of the first controller.
pub const ASYNC_HANDLER_I2C0: u32 = 0;

/// Identifier of the asynchronous interrupt routine of the second controller.
pub const ASYNC_HANDLER_I2C1: u32 = 1;

/// Peripheral data describing one I2C instance.
#[derive(Debug, Clone, Copy, PartialEq, Eq, Structural)]
#[non_exhaustive]
pub struct Info {
    /// The controller.
    pub peripheral: Peripheral,
    /// Interrupt handler of the asynchronous operations of this instance.
    pub async_handler: InterruptHandler,
    /// SCL output signal.
    pub scl_output: Signal,
    /// SCL input signal.
    pub scl_input: Signal,
    /// SDA output signal.
    pub sda_output: Signal,
    /// SDA input signal.
    pub sda_input: Signal,
}

impl Info {
    /// The description of `peripheral`.
    pub open spec fn of(peripheral: Peripheral) -> Info {
        match peripheral {
            Peripheral::I2cExt0 => Info {
                peripheral,
                async_handler: InterruptHandler {
                    id: ASYNC_HANDLER_I2C0,
                    priority: Priority::Priority1,
                },
                scl_output: Signal::I2cExt0Scl,
                scl_input: Signal::I2cExt0Scl,
                sda_output: Signal::I2cExt0Sda,
                sda_input: Signal::I2cExt0Sda,
            },
            Peripheral::I2cExt1 => Info {
                peripheral,
                async_handler: InterruptHandler {
                    id: ASYNC_HANDLER_I2C1,
                    priority: Priority::Priority1,
                },
                scl_output: Signal::I2cExt1Scl,
                scl_input: Signal::I2cExt1Scl,
                sda_output: Signal::I2cExt1Sda,
                sda_input: Signal::I2cExt1Sda,
            },
        }
    }

    /// The description of `peripheral`.
    pub fn for_peripheral(peripheral: Peripheral) -> (info: Info)
        ensures
            info == Info::of(peripheral),
    {
        match peripheral {
            Peripheral::I2cExt0 => Info {
                peripheral,
                async_handler: InterruptHandler {
                    id: ASYNC_HANDLER_I2C0,
                    priority: Priority::Priority1,
                },
                scl_output: Signal::I2cExt0Scl,
                scl_input: Signal::I2cExt0Scl,
                sda_output: Signal::I2cExt0Sda,
                sda_input: Signal::I2cExt0Sda,
            },
            Peripheral::I2cExt1 => Info {
                peripheral,
                async_handler: InterruptHandler {
                    id: ASYNC_HANDLER_I2C1,
                    priority: Priority::Priority1,
                },
                scl_output: Signal::I2cExt1Scl,
                scl_input: Signal::I2cExt1Scl,
                sda_output: Signal::I2cExt1Sda,
                sda_input: Signal::I2cExt1Sda,
            },
        }
    }

    /// Enables (`enable`) or disables the interrupt bits of `interrupts`.
    pub fn enable_listen(&self, regs: &mut I2cRegisters, interrupts: EventSet, enable: bool)
        requires
            old(regs).wf(),
        ensures
            final(regs).wf(),
            final(regs)@ == (RegisterState {
                int_ena: listen_update(old(regs)@.int_ena, interrupts, enable),
                ..old(regs)@
            }),
    {
        enable_listen(regs, interrupts, enable)
    }

    /// The events that the raw interrupt bits assert.
    pub fn interrupts(&self, regs: &I2cRegisters) -> (res: EventSet)
        ensures
            res == asserted_events(regs@.int_raw),
    {
        interrupts(regs)
    }

    /// Clears the raw interrupt bits of `interrupts`.
    pub fn clear_interrupts(&self, regs: &mut I2cRegisters, interrupts: EventSet)
        requires
            old(regs).wf(),
        ensures
            final(regs).wf(),
            final(regs)@ == (RegisterState {
                int_raw: clear_update(old(regs)@.int_raw, interrupts),
                ..old(regs)@
            }),
    {
        clear_interrupts(regs, interrupts)
    }
}

/// The events whose interrupt is the RX FIFO watermark.
pub open spec fn uses_rx_wm(s: EventSet) -> bool {
    s.rx_fifo_full || s.byte_received
}

/// The events whose interrupt is the TX FIFO watermark.
pub open spec fn uses_tx_wm(s: EventSet) -> bool {
    s.tx_fifo_empty || s.byte_transmitted
}

/// The events whose interrupt is transaction-complete.
pub open spec fn uses_trans_complete(s: EventSet) -> bool {
    s.trans_complete || s.slave_addressed
}

/// The enable bits after the interrupts of `events` are set to `enable`.
pub open spec fn listen_update(old: IntBits, events: EventSet, enable: bool) -> IntBits {
    IntBits {
        rxfifo_wm: if uses_rx_wm(events) {
            enable
        } else {
            old.rxfifo_wm
        },
        txfifo_wm: if uses_tx_wm(events) {
            enable
        } else {
            old.txfifo_wm
        },
        trans_complete: if uses_trans_complete(events) {
            enable
        } else {
            old.trans_complete
        },
        end_detect: if events.stop_detected {
            enable
        } else {
            old.end_detect
        },
        trans_start: if events.start_detected {
            enable
        } else {
            old.trans_start
        },
        ..old
    }
}

/// The raw bits after the interrupts of `events` are cleared.
pub open spec fn clear_update(old: IntBits, events: EventSet) -> IntBits {
    IntBits {
        rxfifo_wm: old.rxfifo_wm && !uses_rx_wm(events),
        txfifo_wm: old.txfifo_wm && !uses_tx_wm(events),
        trans_complete: old.trans_complete && !uses_trans_complete(events),
        end_detect: old.end_detect && !events.stop_detected,
        trans_start: old.trans_start && !events.start_detected,
        ..old
    }
}

/// The events that raw interrupt bits assert. The byte events share the FIFO
/// watermarks, and transaction-complete reports the completion, the STOP, the
/// addressing and the START events alike.
pub open spec fn asserted_events(raw: IntBits) -> EventSet {
    EventSet {
        rx_fifo_full: raw.rxfifo_wm,
        tx_fifo_empty: raw.txfifo_wm,
        byte_received: raw.rxfifo_wm,
        byte_transmitted: raw.txfifo_wm,
        trans_complete: raw.trans_complete,
        slave_addressed: raw.trans_complete,
        stop_detected: raw.trans_complete,
        start_detected: raw.trans_complete,
    }
}

/// Sets the enable bits of the interrupts of `interrupts` to `enable`.
pub fn enable_listen(regs: &mut I2cRegisters, interrupts: EventSet, enable: bool)
    requires
        old(regs).wf(),
    ensures
        final(regs).wf(),
        final(regs)@ == (RegisterState {
            int_ena: listen_update(old(regs)@.int_ena, interrupts, enable),
            ..old(regs)@
        }),
{
    regs.int_ena = listen_bits(regs.int_ena, interrupts, enable);
}

fn listen_bits(old: IntBits, interrupts: EventSet, enable: bool) -> (r: IntBits)
    ensures
        r == listen_update(old, interrupts, enable),
{
    // Each event maps onto one enable bit; the byte events share the FIFO
    // watermark bits and addressing shares transaction-complete.
    let rx_wm = interrupts.rx_fifo_full || interrupts.byte_received;
    let tx_wm = interrupts.tx_fifo_empty || interrupts.byte_transmitted;
    let complete = interrupts.trans_complete || interrupts.slave_addressed;
    IntBits {
        rxfifo_wm: if rx_wm { enable } else { old.rxfifo_wm },
        txfifo_wm: if tx_wm { enable } else { old.txfifo_wm },
        trans_complete: if complete { enable } else { old.trans_complete },
        end_detect: if interrupts.stop_detected { enable } else { old.end_detect },
        trans_start: if interrupts.start_detected { enable } else { old.trans_start },
        ..old
    }
}

/// The events that the raw interrupt bits assert.
pub fn interrupts(regs: &I2cRegisters) -> (res: EventSet)
    ensures
        res == asserted_events(regs@.int_raw),
{
    let ints = regs.int_raw;
    // The watermarks stand for the byte events as well, and the completion
    // bit for the STOP, addressing and START events.
    EventSet {
        rx_fifo_full: ints.rxfifo_wm,
        tx_fifo_empty: ints.txfifo_wm,
        byte_received: ints.rxfifo_wm,
        byte_transmitted: ints.txfifo_wm,
        trans_complete: ints.trans_complete,
        slave_addressed: ints.trans_complete,
        stop_detected: ints.trans_complete,
        start_detected: ints.trans_complete,
    }
}

/// Clears the raw interrupt bits of `interrupts`.
pub fn clear_interrupts(regs: &mut I2cRegisters, interrupts: EventSet)
    requires
        old(regs).wf(),
    ensures
        final(regs).wf(),
        final(regs)@ == (RegisterState {
            int_raw: clear_update(old(regs)@.int_raw, interrupts),
            ..old(regs)@
        }),
{
    regs.int_raw = cleared_bits(regs.int_raw, interrupts);
}

fn cleared_bits(old: IntBits, interrupts: EventSet) -> (r: IntBits)
    ensures
        r == clear_update(old, interrupts),
{
    let rx_wm = interrupts.rx_fifo_full || interrupts.byte_received;
    let tx_wm = interrupts.tx_fifo_empty || interrupts.byte_transmitted;
    let complete = interrupts.trans_complete || interrupts.slave_addressed;
    IntBits {
        rxfifo_wm: old.rxfifo_wm && !rx_wm,
        txfifo_wm: old.txfifo_wm && !tx_wm,
        trans_complete: old.trans_complete && !complete,
        end_detect: old.end_detect && !interrupts.stop_detected,
        trans_start: old.trans_start && !interrupts.start_detected,
        ..old
    }
}

/// Enabling the interrupts of a set of events makes every one of them
/// enabled: its interrupt bit is set.
pub proof fn lemma_listen_enables_all(old: IntBits, events: EventSet, e: Event)
    requires
        events@.contains(e),
    ensures
        event_enabled(listen_update(old, events, true), e),
        !event_enabled(listen_update(old, events, false), e),
{
}

/// The enable bit that stands for event `e`.
pub open spec fn event_enabled(ena: IntBits, e: Event) -> bool {
    match e {
        Event::RxFifoFull | Event::ByteReceived => ena.rxfifo_wm,
        Event::TxFifoEmpty | Event::ByteTransmitted => ena.txfifo_wm,
        Event::TransComplete | Event::SlaveAddressed => ena.trans_complete,
        Event::StopDetected => ena.end_detect,
        Event::StartDetected => ena.trans_start,
    }
}

/// After the interrupts of a set of events are cleared, none of them is
/// reported any more, except a STOP or a START: those are reported from the
/// transaction-complete bit, while clearing them clears their own bits.
pub proof fn lemma_clear_then_not_asserted(raw: IntBits, events: EventSet, e: Event)
    requires
        events@.contains(e),
        e != Event::StopDetected,
        e != Event::StartDetected,
    ensures
        !asserted_events(clear_update(raw, events))@.contains(e),
{
}

} // verus!
