//! Register-level operations, the interrupt handler and the transfer futures
//! of the interrupt-driven driver.

use vstd::prelude::*;

use crate::regs::{
    Ctr, FifoConf, FilterCfg, I2C_FIFO_SIZE, I2cRegisters, IntBits, RegisterState, SclStretchConf,
    SlaveAddr, TimeoutConf,
};
use crate::slave::driver::{
    filter_after, filter_threshold, min, release_scl_stretch, set_filter, state_after_release,
};
use crate::task::{AtomicWaker, Poll};

use crate::slave::address::I2cAddress;
use super::config::Config;
use super::error::{ConfigError, Error};
use super::state::{SharedState, State, TransactionState, next_count, woken};

verus! {

/// Stretch limit written at setup.
pub const STRETCH_PROTECT: u16 = 1000;

/// Bus timeout threshold written at setup.
pub const BUS_TIMEOUT_VALUE: u8 = 0x10;

/// The control register after `init_slave`.
pub open spec fn ctr_after_init() -> Ctr {
    Ctr {
        conf_upgate: true,
        slv_tx_auto_start_en: true,
        clk_en: true,
        ..Ctr::reset_spec()
    }
}

/// The FIFO configuration for `config`'s thresholds and mode.
pub open spec fn fifo_conf_for(old: FifoConf, config: Config) -> FifoConf {
    FifoConf {
        rxfifo_wm_thrhd: config.rx_fifo_threshold,
        txfifo_wm_thrhd: config.tx_fifo_threshold,
        fifo_addr_cfg_en: config.register_based_mode,
        ..old
    }
}

/// The register block after `reset_fifo`.
pub open spec fn state_after_reset_fifo(old: RegisterState) -> RegisterState {
    RegisterState {
        fifo_conf: FifoConf { tx_fifo_rst: false, rx_fifo_rst: false, ..old.fifo_conf },
        int_raw: IntBits::none_spec(),
        rx_fifo: Seq::empty(),
        tx_fifo: Seq::empty(),
        ..old
    }
}

/// The register block after `init_slave` for `config`.
pub open spec fn state_after_init(old: RegisterState, config: Config) -> RegisterState {
    state_after_reset_fifo(
        RegisterState {
            ctr: ctr_after_init(),
            fifo_conf: fifo_conf_for(old.fifo_conf, config),
            ..old
        },
    )
}

/// The register block after a successful `setup` for `config`.
pub open spec fn state_after_setup(old: RegisterState, config: Config) -> RegisterState {
    let init = state_after_init(old, config);
    let ten_bit = config.address.ten_bit();
    RegisterState {
        ctr: Ctr { addr_10bit_rw_check_en: ten_bit, ..init.ctr },
        slave_addr: SlaveAddr { slave_addr: config.address.value() as u16, addr_10bit_en: ten_bit },
        scl_stretch_conf: SclStretchConf {
            slave_scl_stretch_en: config.clock_stretch_enable,
            stretch_protect_num: STRETCH_PROTECT,
            slave_byte_ack_ctl_en: false,
            slave_byte_ack_lvl: false,
            ..init.scl_stretch_conf
        },
        to: TimeoutConf { time_out_en: true, time_out_value: BUS_TIMEOUT_VALUE },
        filter_cfg: filter_after(
            init.filter_cfg,
            filter_threshold(config.sda_filter_enable, config.sda_filter_threshold),
            filter_threshold(config.scl_filter_enable, config.scl_filter_threshold),
        ),
        ..init
    }
}

/// After configuration the controller answers the configured address: the
/// slave address register holds the address's value, and its 10-bit mode is
/// on exactly for a 10-bit address.
pub proof fn lemma_setup_sets_address(r: RegisterState, config: Config)
    ensures
        state_after_setup(r, config).slave_addr.addr_10bit_en <==> config.address is TenBit,
        config.address matches I2cAddress::SevenBit(a) ==> state_after_setup(
            r,
            config,
        ).slave_addr.slave_addr == a as u16,
        config.address matches I2cAddress::TenBit(a) ==> state_after_setup(
            r,
            config,
        ).slave_addr.slave_addr == a,
{
}

/// Sets the FIFO thresholds and register-based mode from `config`.
pub fn configure_fifo_thresholds(regs: &mut I2cRegisters, config: &Config)
    requires
        old(regs).wf(),
    ensures
        final(regs).wf(),
        final(regs)@ == (RegisterState {
            fifo_conf: fifo_conf_for(old(regs)@.fifo_conf, *config),
            ..old(regs)@
        }),
{
    regs.fifo_conf.rxfifo_wm_thrhd = config.rx_fifo_threshold;
    regs.fifo_conf.txfifo_wm_thrhd = config.tx_fifo_threshold;
    regs.fifo_conf.fifo_addr_cfg_en = config.register_based_mode;
}

/// Empties both FIFOs and clears every pending interrupt.
pub fn reset_fifo(regs: &mut I2cRegisters)
    requires
        old(regs).wf(),
    ensures
        final(regs).wf(),
        final(regs)@ == state_after_reset_fifo(old(regs)@),
{
    regs.set_fifo_reset(true, true);
    regs.set_fifo_reset(false, false);
    regs.clear_all_interrupts();
}

/// Empties the TX FIFO, so that no stale data goes out.
pub fn clear_tx_fifo(regs: &mut I2cRegisters)
    requires
        old(regs).wf(),
    ensures
        final(regs).wf(),
        final(regs)@ == (RegisterState {
            fifo_conf: FifoConf { tx_fifo_rst: false, ..old(regs)@.fifo_conf },
            tx_fifo: Seq::empty(),
            ..old(regs)@
        }),
{
    regs.pulse_tx_fifo_reset();
}

/// Synchronises the configuration into the controller.
pub fn update_registers(regs: &mut I2cRegisters)
    requires
        old(regs).wf(),
    ensures
        final(regs).wf(),
        final(regs)@ == (RegisterState {
            ctr: Ctr { conf_upgate: true, ..old(regs)@.ctr },
            ..old(regs)@
        }),
{
    regs.ctr.conf_upgate = true;
}

/// Puts the controller in slave mode with automatic transmit, sets the FIFO
/// thresholds from `config` and empties the FIFOs.
pub fn init_slave(regs: &mut I2cRegisters, config: &Config)
    requires
        old(regs).wf(),
    ensures
        final(regs).wf(),
        final(regs)@ == state_after_init(old(regs)@, *config),
{
    regs.ctr = Ctr::zero();
    let mut ctr = Ctr::reset();
    ctr.ms_mode = false;
    ctr.conf_upgate = true;
    ctr.sda_force_out = true;
    ctr.scl_force_out = true;
    ctr.tx_lsb_first = false;
    ctr.rx_lsb_first = false;
    ctr.slv_tx_auto_start_en = true;
    ctr.clk_en = true;
    regs.ctr = ctr;
    regs.ctr.addr_broadcasting_en = false;
    configure_fifo_thresholds(regs, config);
    reset_fifo(regs);
}

/// Sets the glitch filters from `config`.
pub fn configure_filters(regs: &mut I2cRegisters, config: &Config)
    requires
        old(regs).wf(),
    ensures
        final(regs).wf(),
        final(regs)@ == (RegisterState {
            filter_cfg: filter_after(
                old(regs)@.filter_cfg,
                filter_threshold(config.sda_filter_enable, config.sda_filter_threshold),
                filter_threshold(config.scl_filter_enable, config.scl_filter_threshold),
            ),
            ..old(regs)@
        }),
{
    let sda_threshold = if config.sda_filter_enable {
        Some(config.sda_filter_threshold)
    } else {
        None
    };
    let scl_threshold = if config.scl_filter_enable {
        Some(config.scl_filter_threshold)
    } else {
        None
    };
    set_filter(regs, sda_threshold, scl_threshold);
}

/// Checks `config` and sets the controller up for it: slave mode, FIFO
/// thresholds, address, clock stretching, bus timeout and filters. An invalid
/// configuration is refused with its error and changes nothing.
pub fn setup(regs: &mut I2cRegisters, config: &Config) -> (res: Result<(), ConfigError>)
    requires
        old(regs).wf(),
    ensures
        final(regs).wf(),
        res == config.validity(),
        res is Err ==> final(regs)@ == old(regs)@,
        res is Ok ==> final(regs)@ == state_after_setup(old(regs)@, *config),
{
    match config.validate() {
        Ok(()) => {},
        Err(e) => {
            return Err(e);
        },
    }
    init_slave(regs, config);

    let is_10bit = config.address.is_ten_bit();
    let addr_value = config.address.as_u16();
    regs.slave_addr = SlaveAddr { slave_addr: addr_value, addr_10bit_en: is_10bit };
    regs.ctr.addr_10bit_rw_check_en = is_10bit;
    regs.ctr.slv_tx_auto_start_en = true;

    regs.scl_stretch_conf.slave_scl_stretch_en = config.clock_stretch_enable;
    regs.scl_stretch_conf.stretch_protect_num = STRETCH_PROTECT;
    regs.scl_stretch_conf.slave_byte_ack_ctl_en = false;
    regs.scl_stretch_conf.slave_byte_ack_lvl = false;

    regs.to.time_out_en = true;
    regs.to.time_out_value = BUS_TIMEOUT_VALUE;

    configure_filters(regs, config);
    update_registers(regs);
    Ok(())
}

/// Number of bytes waiting in the RX FIFO.
pub fn rx_fifo_count(regs: &I2cRegisters) -> (n: usize)
    ensures
        n == regs@.rx_fifo.len(),
{
    regs.rxfifo_cnt()
}

/// Number of free places in the TX FIFO.
pub fn tx_fifo_free(regs: &I2cRegisters) -> (n: usize)
    requires
        regs.wf(),
    ensures
        n == I2C_FIFO_SIZE - regs@.tx_fifo.len(),
{
    I2C_FIFO_SIZE - regs.txfifo_cnt()
}

/// The error that raw interrupt bits show, if any: arbitration loss, bus
/// timeout, RX overflow, then TX underflow (reported by the RX underflow bit).
pub open spec fn interrupt_error(raw: IntBits) -> Option<Error> {
    if raw.arbitration_lost {
        Some(Error::ArbitrationLost)
    } else if raw.time_out {
        Some(Error::Timeout)
    } else if raw.rxfifo_ovf {
        Some(Error::RxFifoOverflow)
    } else if raw.rxfifo_udf {
        Some(Error::TxFifoUnderflow)
    } else {
        None
    }
}

/// The error that the raw interrupt bits show, if any.
pub fn check_interrupt_errors(regs: &I2cRegisters) -> (e: Option<Error>)
    ensures
        e == interrupt_error(regs@.int_raw),
{
    let status = regs.int_raw;
    if status.arbitration_lost {
        return Some(Error::ArbitrationLost);
    }
    if status.time_out {
        return Some(Error::Timeout);
    }
    if status.rxfifo_ovf {
        return Some(Error::RxFifoOverflow);
    }
    if status.rxfifo_udf {
        return Some(Error::TxFifoUnderflow);
    }
    None
}

/// A waker slot after a wake that happens when `cond` holds.
pub open spec fn woken_if(w: AtomicWaker, cond: bool) -> AtomicWaker {
    if cond {
        woken(w)
    } else {
        w
    }
}

/// The bytes a completed transaction counts: what the state tracked, else
/// what was read plus what waits in the RX FIFO.
pub open spec fn completed_bytes(ts: TransactionState, rx_index: usize, rx_count: nat) -> usize {
    match ts {
        TransactionState::Receiving { bytes_received } => bytes_received,
        TransactionState::Transmitting { bytes_sent } => bytes_sent,
        _ => (rx_index + rx_count) as usize,
    }
}

/// The bus error that ends the handling of an interrupt, if any: arbitration
/// loss before bus timeout.
pub open spec fn bus_error(raw: IntBits) -> Option<Error> {
    if raw.arbitration_lost {
        Some(Error::ArbitrationLost)
    } else if raw.time_out {
        Some(Error::Timeout)
    } else {
        None
    }
}

/// The register block after the interrupt handler ran on `r`: a bus error
/// has its own bit cleared; otherwise the watermark, completion, STOP and
/// FIFO fault bits are cleared.
pub open spec fn handler_regs(r: RegisterState) -> RegisterState {
    let raw = r.int_raw;
    RegisterState {
        int_raw: if raw.arbitration_lost {
            IntBits { arbitration_lost: false, ..raw }
        } else if raw.time_out {
            IntBits { time_out: false, ..raw }
        } else {
            IntBits {
                rxfifo_wm: false,
                txfifo_wm: false,
                trans_complete: false,
                end_detect: false,
                rxfifo_udf: false,
                rxfifo_ovf: false,
                ..raw
            }
        },
        ..r
    }
}

/// The shared state after the interrupt handler ran on registers `r`.
pub open spec fn handler_state(r: RegisterState, s: SharedState) -> SharedState {
    let raw = r.int_raw;
    let counted = SharedState { interrupt_count: next_count(s.interrupt_count), ..s };
    match bus_error(raw) {
        Some(e) => SharedState {
            last_error: Some(e),
            transaction_state: TransactionState::Error(e),
            rx_waker: woken(s.rx_waker),
            tx_waker: woken(s.tx_waker),
            ..counted
        },
        None => SharedState {
            last_error: if raw.rxfifo_ovf {
                Some(Error::RxFifoOverflow)
            } else if raw.rxfifo_udf {
                Some(Error::TxFifoUnderflow)
            } else {
                s.last_error
            },
            transaction_state: if raw.rxfifo_ovf {
                TransactionState::Error(Error::RxFifoOverflow)
            } else if raw.rxfifo_udf {
                TransactionState::Error(Error::TxFifoUnderflow)
            } else if raw.trans_complete {
                TransactionState::Complete {
                    bytes_transferred: completed_bytes(
                        s.transaction_state,
                        s.rx_index,
                        r.rx_fifo.len(),
                    ),
                }
            } else {
                s.transaction_state
            },
            rx_waker: woken_if(s.rx_waker, raw.rxfifo_wm || raw.trans_complete || raw.rxfifo_ovf),
            tx_waker: woken_if(s.tx_waker, raw.txfifo_wm || raw.trans_complete || raw.rxfifo_udf),
            ..counted
        },
    }
}

/// The interrupt counter after `k` more interrupts from `n`.
pub open spec fn count_after(n: u32, k: nat) -> u32
    decreases k,
{
    if k == 0 {
        n
    } else {
        next_count(count_after(n, (k - 1) as nat))
    }
}

/// The counter counts the handled interrupts: every run of the handler
/// moves it one step, so that a driver that starts at zero (as `new` makes
/// it) reads `k` after `k` interrupts, for `k` below 2^32, and each of these
/// interrupts raised it.
pub proof fn lemma_counter_counts(r: RegisterState, s: SharedState, k: nat)
    requires
        k <= u32::MAX,
    ensures
        handler_state(r, s).interrupt_count == next_count(s.interrupt_count),
        count_after(0, k) == k,
        k > 0 ==> count_after(0, (k - 1) as nat) < count_after(0, k),
    decreases k,
{
    if k > 0 {
        lemma_counter_counts(r, s, (k - 1) as nat);
    }
}

/// The interrupt handler. It counts the interrupt, then:
/// - arbitration loss or a bus timeout records the error, clears its bit,
///   wakes both tasks and ends the handling;
/// - otherwise the RX watermark wakes the receiver, the TX watermark the
///   transmitter, a completed transaction becomes `Complete` and wakes both,
///   a TX underflow or an RX overflow records its error and wakes its task;
///   each of these bits, and the STOP bit, is cleared.
pub fn async_handler(regs: &mut I2cRegisters, state: &mut State)
    requires
        old(regs).wf(),
        old(state).rx_index <= usize::MAX - I2C_FIFO_SIZE,
    ensures
        final(regs).wf(),
        final(regs)@ == handler_regs(old(regs)@),
        final(state)@ == handler_state(old(regs)@, old(state)@),
{
    let int_status = regs.int_raw;
    state.increment_interrupt_counter();

    // Errors first.
    if int_status.arbitration_lost {
        handle_bus_error(regs, state, Error::ArbitrationLost);
        return;
    }
    if int_status.time_out {
        handle_bus_error(regs, state, Error::Timeout);
        return;
    }
    handle_watermarks(regs, state);
    handle_completion(regs, state);
    handle_faults(regs, state);
}

/// Records a bus error, clears its bit and wakes both tasks.
fn handle_bus_error(regs: &mut I2cRegisters, state: &mut State, error: Error)
    requires
        old(regs).wf(),
        error == Error::ArbitrationLost || error == Error::Timeout,
    ensures
        final(regs).wf(),
        final(state)@ == (SharedState {
            last_error: Some(error),
            transaction_state: TransactionState::Error(error),
            rx_waker: woken(old(state).rx_waker),
            tx_waker: woken(old(state).tx_waker),
            ..old(state)@
        }),
        final(regs)@ == (RegisterState {
            int_raw: if error == Error::ArbitrationLost {
                IntBits { arbitration_lost: false, ..old(regs)@.int_raw }
            } else {
                IntBits { time_out: false, ..old(regs)@.int_raw }
            },
            ..old(regs)@
        }),
{
    state.set_error(error);
    if matches!(error, Error::ArbitrationLost) {
        regs.int_raw.arbitration_lost = false;
    } else {
        regs.int_raw.time_out = false;
    }
    state.wake_rx();
    state.wake_tx();
}

/// Wakes the receiver on the RX watermark and the transmitter on the TX
/// watermark, clearing each bit.
fn handle_watermarks(regs: &mut I2cRegisters, state: &mut State)
    requires
        old(regs).wf(),
    ensures
        final(regs).wf(),
        final(state)@ == (SharedState {
            rx_waker: woken_if(old(state).rx_waker, old(regs)@.int_raw.rxfifo_wm),
            tx_waker: woken_if(old(state).tx_waker, old(regs)@.int_raw.txfifo_wm),
            ..old(state)@
        }),
        final(regs)@ == (RegisterState {
            int_raw: IntBits { rxfifo_wm: false, txfifo_wm: false, ..old(regs)@.int_raw },
            ..old(regs)@
        }),
{
    if regs.int_raw.rxfifo_wm {
        // Data available to read.
        state.wake_rx();
        regs.int_raw.rxfifo_wm = false;
    }
    if regs.int_raw.txfifo_wm {
        // Room available to write.
        state.wake_tx();
        regs.int_raw.txfifo_wm = false;
    }
}

/// On a completed transaction, moves the state to `Complete` and wakes both
/// tasks; clears the completion and STOP bits.
fn handle_completion(regs: &mut I2cRegisters, state: &mut State)
    requires
        old(regs).wf(),
        old(state).rx_index <= usize::MAX - I2C_FIFO_SIZE,
    ensures
        final(regs).wf(),
        final(state)@ == (if old(regs)@.int_raw.trans_complete {
            SharedState {
                transaction_state: TransactionState::Complete {
                    bytes_transferred: completed_bytes(
                        old(state).transaction_state,
                        old(state).rx_index,
                        old(regs)@.rx_fifo.len(),
                    ),
                },
                rx_waker: woken(old(state).rx_waker),
                tx_waker: woken(old(state).tx_waker),
                ..old(state)@
            }
        } else {
            old(state)@
        }),
        final(regs)@ == (RegisterState {
            int_raw: IntBits { trans_complete: false, end_detect: false, ..old(regs)@.int_raw },
            ..old(regs)@
        }),
{
    if regs.int_raw.trans_complete {
        let bytes = match state.get_state() {
            TransactionState::Receiving { bytes_received } => bytes_received,
            TransactionState::Transmitting { bytes_sent } => bytes_sent,
            _ => {
                // Not tracked: count what was read and what is waiting.
                let rx_fifo_count = regs.rxfifo_cnt();
                let rx_index = state.get_rx_index();
                rx_index + rx_fifo_count
            },
        };
        state.set_state(TransactionState::Complete { bytes_transferred: bytes });
        // Whatever operation waits must hear of the end.
        state.wake_rx();
        state.wake_tx();
        regs.int_raw.trans_complete = false;
    }
    if regs.int_raw.end_detect {
        // STOP detected.
        regs.int_raw.end_detect = false;
    }
}

/// Records a TX underflow (reported by the RX underflow bit) or an RX
/// overflow, wakes the task concerned and clears the bit.
fn handle_faults(regs: &mut I2cRegisters, state: &mut State)
    requires
        old(regs).wf(),
    ensures
        final(regs).wf(),
        final(state)@ == (SharedState {
            last_error: if old(regs)@.int_raw.rxfifo_ovf {
                Some(Error::RxFifoOverflow)
            } else if old(regs)@.int_raw.rxfifo_udf {
                Some(Error::TxFifoUnderflow)
            } else {
                old(state).last_error
            },
            transaction_state: if old(regs)@.int_raw.rxfifo_ovf {
                TransactionState::Error(Error::RxFifoOverflow)
            } else if old(regs)@.int_raw.rxfifo_udf {
                TransactionState::Error(Error::TxFifoUnderflow)
            } else {
                old(state).transaction_state
            },
            rx_waker: woken_if(old(state).rx_waker, old(regs)@.int_raw.rxfifo_ovf),
            tx_waker: woken_if(old(state).tx_waker, old(regs)@.int_raw.rxfifo_udf),
            ..old(state)@
        }),
        final(regs)@ == (RegisterState {
            int_raw: IntBits { rxfifo_udf: false, rxfifo_ovf: false, ..old(regs)@.int_raw },
            ..old(regs)@
        }),
{
    if regs.int_raw.rxfifo_udf {
        // The master read faster than data was supplied.
        state.set_error(Error::TxFifoUnderflow);
        state.wake_tx();
        regs.int_raw.rxfifo_udf = false;
    }
    if regs.int_raw.rxfifo_ovf {
        // The master sent faster than data was taken.
        state.set_error(Error::RxFifoOverflow);
        state.wake_rx();
        regs.int_raw.rxfifo_ovf = false;
    }
}

} // verus!
