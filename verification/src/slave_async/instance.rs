//! Peripheral description of the interrupt-driven driver and the mapping of
//! its events onto interrupt bits.

use vstd::prelude::*;

use crate::periph::{InterruptHandler, InterruptLine, Peripheral, Priority, Signal};
use crate::regs::{I2cRegisters, IntBits, RegisterState};
use crate::slave::info::{ASYNC_HANDLER_I2C0, ASYNC_HANDLER_I2C1};

use super::event::EventSet;

verus! {

/// Peripheral instance information.
#[derive(Debug, Clone, Copy, PartialEq, Eq, Structural)]
pub struct Info {
    /// The controller.
    pub peripheral: Peripheral,
    /// The interrupt handler of the instance.
    pub async_handler: InterruptHandler,
    /// SCL output signal.
    pub scl_output: Signal,
    /// SCL input signal.
    pub scl_input: Signal,
    /// SDA output signal.
    pub sda_output: Signal,
    /// SDA input signal.
    pub sda_input: Signal,
}

impl Info {
    /// The description of `peripheral`.
    pub open spec fn of(peripheral: Peripheral) -> Info {
        match peripheral {
            Peripheral::I2cExt0 => Info {
                peripheral,
                async_handler: InterruptHandler {
                    id: ASYNC_HANDLER_I2C0,
                    priority: Priority::Priority1,
                },
                scl_output: Signal::I2cExt0Scl,
                scl_input: Signal::I2cExt0Scl,
                sda_output: Signal::I2cExt0Sda,
                sda_input: Signal::I2cExt0Sda,
            },
            Peripheral::I2cExt1 => Info {
                peripheral,
                async_handler: InterruptHandler {
                    id: ASYNC_HANDLER_I2C1,
                    priority: Priority::Priority1,
                },
                scl_output: Signal::I2cExt1Scl,
                scl_input: Signal::I2cExt1Scl,
                sda_output: Signal::I2cExt1Sda,
                sda_input: Signal::I2cExt1Sda,
            },
        }
    }

    /// The description of `peripheral`.
    pub fn for_peripheral(peripheral: Peripheral) -> (info: Info)
        ensures
            info == Info::of(peripheral),
    {
        match peripheral {
            Peripheral::I2cExt0 => Info {
                peripheral,
                async_handler: InterruptHandler {
                    id: ASYNC_HANDLER_I2C0,
                    priority: Priority::Priority1,
                },
                scl_output: Signal::I2cExt0Scl,
                scl_input: Signal::I2cExt0Scl,
                sda_output: Signal::I2cExt0Sda,
                sda_input: Signal::I2cExt0Sda,
            },
            Peripheral::I2cExt1 => Info {
                peripheral,
                async_handler: InterruptHandler {
                    id: ASYNC_HANDLER_I2C1,
                    priority: Priority::Priority1,
                },
                scl_output: Signal::I2cExt1Scl,
                scl_input: Signal::I2cExt1Scl,
                sda_output: Signal::I2cExt1Sda,
                sda_input: Signal::I2cExt1Sda,
            },
        }
    }

    /// Enables (`enable`) or disables the interrupt bits of `interrupts`.
    pub fn enable_listen(&self, regs: &mut I2cRegisters, interrupts: EventSet, enable: bool)
        requires
            old(regs).wf(),
        ensures
            final(regs).wf(),
            final(regs)@ == (RegisterState {
                int_ena: listen_update(old(regs)@.int_ena, interrupts, enable),
                ..old(regs)@
            }),
    {
        regs.int_ena = listen_bits(regs.int_ena, interrupts, enable);
    }

    /// Clears the raw interrupt bits of `interrupts`.
    pub fn clear_interrupts(&self, regs: &mut I2cRegisters, interrupts: EventSet)
        requires
            old(regs).wf(),
        ensures
            final(regs).wf(),
            final(regs)@ == (RegisterState {
                int_raw: clear_update(old(regs)@.int_raw, interrupts),
                ..old(regs)@
            }),
    {
        regs.int_raw = cleared_bits(regs.int_raw, interrupts);
    }
}

/// Events whose interrupt is the RX FIFO watermark.
pub open spec fn uses_rx_wm(s: EventSet) -> bool {
    s.rx_fifo_threshold || s.byte_received
}

/// Events whose interrupt is the TX FIFO watermark.
pub open spec fn uses_tx_wm(s: EventSet) -> bool {
    s.tx_fifo_threshold || s.byte_transmitted
}

/// Events whose interrupt is the START bit.
pub open spec fn uses_trans_start(s: EventSet) -> bool {
    s.address_match || s.start_detected
}

/// The enable bits after the interrupts of `events` are set to `enable`.
pub open spec fn listen_update(old: IntBits, events: EventSet, enable: bool) -> IntBits {
    IntBits {
        rxfifo_wm: if uses_rx_wm(events) {
            enable
        } else {
            old.rxfifo_wm
        },
        txfifo_wm: if uses_tx_wm(events) {
            enable
        } else {
            old.txfifo_wm
        },
        trans_complete: if events.trans_complete {
            enable
        } else {
            old.trans_complete
        },
        trans_start: if uses_trans_start(events) {
            enable
        } else {
            old.trans_start
        },
        end_detect: if events.stop_detected {
            enable
        } else {
            old.end_detect
        },
        arbitration_lost: if events.arbitration_lost {
            enable
        } else {
            old.arbitration_lost
        },
        time_out: if events.timeout {
            enable
        } else {
            old.time_out
        },
        rxfifo_ovf: if events.rx_fifo_overflow {
            enable
        } else {
            old.rxfifo_ovf
        },
        rxfifo_udf: if events.tx_fifo_underflow {
            enable
        } else {
            old.rxfifo_udf
        },
        ..old
    }
}

/// The raw bits after the interrupts of `events` are cleared.
pub open spec fn clear_update(old: IntBits, events: EventSet) -> IntBits {
    IntBits {
        rxfifo_wm: old.rxfifo_wm && !uses_rx_wm(events),
        txfifo_wm: old.txfifo_wm && !uses_tx_wm(events),
        trans_complete: old.trans_complete && !events.trans_complete,
        trans_start: old.trans_start && !uses_trans_start(events),
        end_detect: old.end_detect && !events.stop_detected,
        arbitration_lost: old.arbitration_lost && !events.arbitration_lost,
        time_out: old.time_out && !events.timeout,
        rxfifo_ovf: old.rxfifo_ovf && !events.rx_fifo_overflow,
        rxfifo_udf: old.rxfifo_udf && !events.tx_fifo_underflow,
        ..old
    }
}

fn listen_bits(old: IntBits, interrupts: EventSet, enable: bool) -> (r: IntBits)
    ensures
        r == listen_update(old, interrupts, enable),
{
    // The byte events share the FIFO watermarks; address match shares START.
    let rx_wm = interrupts.rx_fifo_threshold || interrupts.byte_received;
    let tx_wm = interrupts.tx_fifo_threshold || interrupts.byte_transmitted;
    let start = interrupts.address_match || interrupts.start_detected;
    IntBits {
        rxfifo_wm: if rx_wm { enable } else { old.rxfifo_wm },
        txfifo_wm: if tx_wm { enable } else { old.txfifo_wm },
        trans_complete: if interrupts.trans_complete { enable } else { old.trans_complete },
        trans_start: if start { enable } else { old.trans_start },
        end_detect: if interrupts.stop_detected { enable } else { old.end_detect },
        arbitration_lost: if interrupts.arbitration_lost { enable } else { old.arbitration_lost },
        time_out: if interrupts.timeout { enable } else { old.time_out },
        rxfifo_ovf: if interrupts.rx_fifo_overflow { enable } else { old.rxfifo_ovf },
        rxfifo_udf: if interrupts.tx_fifo_underflow { enable } else { old.rxfifo_udf },
        ..old
    }
}

fn cleared_bits(old: IntBits, interrupts: EventSet) -> (r: IntBits)
    ensures
        r == clear_update(old, interrupts),
{
    let rx_wm = interrupts.rx_fifo_threshold || interrupts.byte_received;
    let tx_wm = interrupts.tx_fifo_threshold || interrupts.byte_transmitted;
    let start = interrupts.address_match || interrupts.start_detected;
    IntBits {
        rxfifo_wm: old.rxfifo_wm && !rx_wm,
        txfifo_wm: old.txfifo_wm && !tx_wm,
        trans_complete: old.trans_complete && !interrupts.trans_complete,
        trans_start: old.trans_start && !start,
        end_detect: old.end_detect && !interrupts.stop_detected,
        arbitration_lost: old.arbitration_lost && !interrupts.arbitration_lost,
        time_out: old.time_out && !interrupts.timeout,
        rxfifo_ovf: old.rxfifo_ovf && !interrupts.rx_fifo_overflow,
        rxfifo_udf: old.rxfifo_udf && !interrupts.tx_fifo_underflow,
        ..old
    }
}

/// Clearing the interrupts of every event clears every raw bit that an
/// event stands for: what remains pending is only the byte-done, master
/// underflow, NACK and TX overflow bits, which no event names.
pub proof fn lemma_clear_all(old: IntBits)
    ensures
        clear_update(old, EventSet::filled(true)) == (IntBits {
            byte_trans_done: old.byte_trans_done,
            mst_txfifo_udf: old.mst_txfifo_udf,
            nack: old.nack,
            txfifo_ovf: old.txfifo_ovf,
            ..IntBits::none_spec()
        }),
{
}

/// Installs `handler` for the controller without enabling the interrupt:
/// the interrupt is disabled, every event's interrupt disabled and cleared,
/// and the handler bound.
pub fn bind_interrupt_handler(
    info: &Info,
    regs: &mut I2cRegisters,
    line: &mut InterruptLine,
    handler: InterruptHandler,
)
    requires
        old(regs).wf(),
    ensures
        final(regs).wf(),
        final(regs)@ == (RegisterState {
            int_ena: listen_update(old(regs)@.int_ena, EventSet::filled(true), false),
            int_raw: clear_update(old(regs)@.int_raw, EventSet::filled(true)),
            ..old(regs)@
        }),
        *final(line) == (InterruptLine { bound: Some(handler.id), enabled: None }),
{
    line.enabled = None;
    info.enable_listen(regs, EventSet::all(), false);
    info.clear_interrupts(regs, EventSet::all());
    // The interrupt is enabled later, once the driver is configured.
    line.bound = Some(handler.id);
}

} // verus!
