//! The polling I2C slave driver.

use core::marker::PhantomData;

use vstd::prelude::*;

use crate::periph::{
    InterruptHandler, InterruptLine, PinGuard, Peripheral, Priority, connect_pin, i2c_pin,
};
use crate::regs::{Ctr, FifoConf, I2C_FIFO_SIZE, I2cRegisters, IntBits, RegisterState};
use crate::task::{AtomicWaker, Poll};

use super::config::Config;
use super::driver::{
    self, RxWait, RxWaitStep, load_result, load_state, min, read_fifo, release_scl_stretch,
    reset_fifo, setup, start_rx_wait, state_after_force_release, state_after_release,
    state_after_reset_fifo, state_after_setup, state_after_tx_clear, write_fifo,
};
use super::error::{ConfigError, Error};
use super::event::{Event, EventSet};
use super::future::{I2cFuture, future_enable};
use super::info::{Info, asserted_events, clear_update, listen_update};

verus! {

/// Marker of a driver that blocks: reads and writes poll the hardware.
#[derive(Debug, Clone, Copy, PartialEq, Eq, Structural)]
pub struct Blocking;

/// Marker of a driver whose reads and writes wait on interrupts.
#[derive(Debug, Clone, Copy, PartialEq, Eq, Structural)]
pub struct Async;

/// The configuration of a driver with its pin connections.
#[derive(Debug, Clone, Copy, PartialEq, Eq, Structural)]
pub struct DriverConfig {
    /// The configuration applied.
    pub config: Config,
    /// The SDA connection.
    pub sda_pin: PinGuard,
    /// The SCL connection.
    pub scl_pin: PinGuard,
}

/// State shared with the interrupt handler.
#[derive(Debug, Clone, Copy, PartialEq, Eq, Structural)]
pub struct State {
    /// Waker of the operation that waits.
    pub waker: AtomicWaker,
}

/// I2C slave driver.
///
/// `regs` is the register block of the controller the driver owns.
#[derive(Debug)]
pub struct I2c<Dm> {
    /// The controller's register block.
    pub regs: I2cRegisters,
    /// Description of the controller.
    pub info: Info,
    /// The controller's interrupt-controller entry.
    pub interrupt: InterruptLine,
    /// State shared with the interrupt handler.
    pub state: State,
    /// Configuration and pins.
    pub config: DriverConfig,
    /// Marks the operating mode.
    pub phantom: PhantomData<Dm>,
}

/// The interrupt handler of asynchronous operations: it masks every
/// interrupt (the waiting future reads the raw status) and wakes the task.
pub fn async_handler(regs: &mut I2cRegisters, state: &mut State)
    requires
        old(regs).wf(),
    ensures
        final(regs).wf(),
        final(regs)@ == (RegisterState { int_ena: IntBits::none_spec(), ..old(regs)@ }),
        old(state).waker.registered ==> final(state).waker == (AtomicWaker {
            registered: false,
            wake_pending: true,
        }),
        !old(state).waker.registered ==> *final(state) == *old(state),
{
    regs.int_ena = IntBits::none();
    state.waker.wake();
}

/// The register block after a handler was installed: every event's
/// interrupt disabled and cleared.
pub open spec fn state_after_handler_install(old: RegisterState) -> RegisterState {
    RegisterState {
        int_ena: listen_update(old.int_ena, EventSet::all_spec(), false),
        int_raw: clear_update(old.int_raw, EventSet::all_spec()),
        ..old
    }
}

/// Installs `handler` for the controller: the interrupt is disabled, every
/// event's interrupt is disabled and cleared, the handler is bound and the
/// interrupt enabled at the handler's priority.
pub fn install_interrupt_handler(
    regs: &mut I2cRegisters,
    line: &mut InterruptLine,
    handler: InterruptHandler,
)
    requires
        old(regs).wf(),
        handler.priority != Priority::Disabled,
    ensures
        final(regs).wf(),
        final(regs)@ == state_after_handler_install(old(regs)@),
        *final(line) == (InterruptLine {
            bound: Some(handler.id),
            enabled: Some(handler.priority),
        }),
{
    line.enabled = None;
    super::info::enable_listen(regs, EventSet::all(), false);
    super::info::clear_interrupts(regs, EventSet::all());
    line.bound = Some(handler.id);
    line.enabled = Some(handler.priority);
}

/// The register block after `write` cleared the interrupts and made sure the
/// controller is a slave that transmits on its own.
pub open spec fn state_before_load(old: RegisterState) -> RegisterState {
    RegisterState {
        int_raw: IntBits::none_spec(),
        ctr: Ctr {
            ms_mode: false,
            sda_force_out: true,
            scl_force_out: true,
            slv_tx_auto_start_en: true,
            ..old.ctr
        },
        ..old
    }
}

/// The register block after `read_fifo` took `count` bytes from `old`.
pub open spec fn state_after_read(old: RegisterState, count: int) -> RegisterState {
    if old.rx_fifo.len() == 0 {
        old
    } else {
        RegisterState {
            rx_fifo: old.rx_fifo.skip(count),
            int_raw: IntBits::none_spec(),
            ctr: Ctr {
                ms_mode: false,
                slv_tx_auto_start_en: true,
                sda_force_out: true,
                scl_force_out: true,
                conf_upgate: true,
                ..old.ctr
            },
            ..old
        }
    }
}

/// The interrupt entry of a driver switched to asynchronous operation: bound
/// to the controller's asynchronous routine and enabled at its priority.
pub open spec fn line_after_async(info: Info) -> InterruptLine {
    InterruptLine {
        bound: Some(info.async_handler.id),
        enabled: Some(info.async_handler.priority),
    }
}

/// The interrupt entry of a driver switched back to blocking operation: the
/// interrupt is disabled.
pub open spec fn line_after_blocking(line: InterruptLine) -> InterruptLine {
    InterruptLine { enabled: None, ..line }
}

/// Switching a driver to asynchronous operation and back keeps its
/// configuration and pins (both switches keep them), leaves its registers
/// with every event's interrupt disabled and cleared, and leaves the
/// interrupt bound to the asynchronous routine but disabled.
pub proof fn lemma_async_round_trip(info: Info, regs: RegisterState)
    requires
        info.async_handler.priority != Priority::Disabled,
    ensures
        line_after_blocking(line_after_async(info)) == (InterruptLine {
            bound: Some(info.async_handler.id),
            enabled: None,
        }),
        state_after_handler_install(regs).int_ena == listen_update(
            regs.int_ena,
            EventSet::all_spec(),
            false,
        ),
        state_after_handler_install(regs).tx_fifo == regs.tx_fifo,
        state_after_handler_install(regs).rx_fifo == regs.rx_fifo,
{
}

/// What the master reads after a write is what was written: a write of at
/// most a FIFO's worth of bytes succeeds when the TX FIFO is emptied first
/// (`clear_tx_on_write` off) or, with it on, when the queued bytes and the
/// new ones fit; the TX FIFO then holds `buffer` after whatever stayed
/// queued, and with stretching on the clock stretch is released.
pub proof fn lemma_write_queues_buffer(r: RegisterState, config: Config, buffer: Seq<u8>)
    requires
        r.wf(),
        0 < buffer.len() <= I2C_FIFO_SIZE,
        config.clear_tx_on_write ==> r.tx_fifo.len() + buffer.len() <= I2C_FIFO_SIZE,
    ensures
        load_result(state_before_load(r), config, buffer) is Ok,
        load_state(state_before_load(r), config, buffer).tx_fifo == (if config.clear_tx_on_write {
            r.tx_fifo + buffer
        } else {
            buffer
        }),
        load_state(state_before_load(r), config, buffer).rx_fifo == r.rx_fifo,
        config.clock_stretch_enable ==> load_state(
            state_before_load(r),
            config,
            buffer,
        ).scl_stretch_conf.slave_scl_stretch_clr,
{
    assert(buffer.take(buffer.len() as int) =~= buffer);
    assert(Seq::<u8>::empty() + buffer =~= buffer);
}

/// A write longer than the FIFO is refused with `FifoExceeded` and loads
/// nothing.
pub proof fn lemma_oversized_write_refused(r: RegisterState, config: Config, buffer: Seq<u8>)
    requires
        buffer.len() > I2C_FIFO_SIZE,
    ensures
        load_result(state_before_load(r), config, buffer) == Err::<(), Error>(Error::FifoExceeded),
        load_state(state_before_load(r), config, buffer) == state_before_load(r),
{
}

impl<Dm> I2c<Dm> {
    /// The register block respects the FIFO depth.
    pub open spec fn wf(&self) -> bool {
        self.regs.wf()
    }

    /// Connects a GPIO pin to the SDA signal, replacing any earlier one.
    pub fn with_sda(self, gpio: u8) -> (r: Self)
        ensures
            r.config.sda_pin == (PinGuard {
                signal: self.info.sda_output,
                pin: Some(i2c_pin(gpio, self.info.sda_input, self.info.sda_output)),
            }),
            r.config.scl_pin == self.config.scl_pin,
            r.config.config == self.config.config,
            r.regs@ == self.regs@,
            r.info == self.info,
            r.interrupt == self.interrupt,
            r.state == self.state,
    {
        let mut s = self;
        let input = s.info.sda_input;
        let output = s.info.sda_output;
        connect_pin(gpio, input, output, &mut s.config.sda_pin);
        s
    }

    /// Connects a GPIO pin to the SCL signal, replacing any earlier one.
    pub fn with_scl(self, gpio: u8) -> (r: Self)
        ensures
            r.config.scl_pin == (PinGuard {
                signal: self.info.scl_output,
                pin: Some(i2c_pin(gpio, self.info.scl_input, self.info.scl_output)),
            }),
            r.config.sda_pin == self.config.sda_pin,
            r.config.config == self.config.config,
            r.regs@ == self.regs@,
            r.info == self.info,
            r.interrupt == self.interrupt,
            r.state == self.state,
    {
        let mut s = self;
        let input = s.info.scl_input;
        let output = s.info.scl_output;
        connect_pin(gpio, input, output, &mut s.config.scl_pin);
        s
    }

    /// Releases a clock stretch in progress, when stretching is enabled. Call
    /// it after `write` in write-read exchanges once the response is loaded.
    pub fn release_scl_stretch(&mut self)
        requires
            old(self).wf(),
        ensures
            final(self).wf(),
            final(self).regs@ == state_after_release(
                old(self).regs@,
                old(self).config.config.clock_stretch_enable,
            ),
            final(self).config == old(self).config,
            final(self).info == old(self).info,
            final(self).interrupt == old(self).interrupt,
            final(self).state == old(self).state,
    {
        release_scl_stretch(&mut self.regs, self.config.config.clock_stretch_enable);
    }

    /// Begins a blocking read at time `now_us`: a zero-length buffer is
    /// refused. Otherwise, with `clear_tx_on_write` set, the TX FIFO is
    /// emptied first so that no stale response stays queued, whatever the
    /// read ends with; then pending interrupts are cleared and the wait for
    /// data starts. Drive the wait with [`I2c::read_poll`] and collect the
    /// bytes with [`I2c::read_finish`].
    pub fn read_start(&mut self, buffer_len: usize, now_us: u64) -> (res: Result<RxWait, Error>)
        requires
            old(self).wf(),
        ensures
            final(self).wf(),
            buffer_len == 0 ==> res == Err::<RxWait, Error>(Error::ZeroLengthInvalid)
                && final(self).regs@ == old(self).regs@,
            buffer_len > 0 ==> res == Ok::<RxWait, Error>(
                RxWait {
                    start_us: now_us,
                    timeout_us: (old(self).config.config.timeout_ms * 1000) as u64,
                    phase: driver::RxWaitPhase::Polling,
                },
            ) && final(self).regs@ == (RegisterState {
                int_raw: IntBits::none_spec(),
                ..(if old(self).config.config.clear_tx_on_write {
                    state_after_tx_clear(old(self).regs@)
                } else {
                    old(self).regs@
                })
            }),
            final(self).config == old(self).config,
            final(self).info == old(self).info,
            final(self).interrupt == old(self).interrupt,
            final(self).state == old(self).state,
    {
        if buffer_len == 0 {
            return Err(Error::ZeroLengthInvalid);
        }
        if self.config.config.clear_tx_on_write {
            driver::clear_tx_after_read(&mut self.regs);
        }
        Ok(start_rx_wait(&mut self.regs, self.config.config.timeout_ms, now_us))
    }

    /// One step of the wait that [`I2c::read_start`] began, at time `now_us`
    /// (see [`driver::rx_wait_step`]).
    pub fn read_poll(&mut self, wait: RxWait, now_us: u64) -> (step: RxWaitStep)
        requires
            old(self).wf(),
        ensures
            final(self).wf(),
            final(self).config == old(self).config,
            final(self).info == old(self).info,
            final(self).interrupt == old(self).interrupt,
            final(self).state == old(self).state,
            step == driver::rx_wait_next(old(self).regs@, wait, now_us),
            final(self).regs@ == driver::rx_wait_regs(old(self).regs@, wait, now_us),
    {
        driver::rx_wait_step(&mut self.regs, wait, now_us)
    }

    /// Ends a blocking read once the wait succeeded: copies the received bytes
    /// into `buffer` (as many as the RX FIFO holds, at most its length) and
    /// returns their number. With `clear_tx_on_write` set, the TX FIFO is then
    /// emptied so that no stale response stays queued.
    pub fn read_finish(&mut self, buffer: &mut [u8]) -> (count: usize)
        requires
            old(self).wf(),
        ensures
            final(self).wf(),
            count == min(old(buffer)@.len() as int, old(self).regs@.rx_fifo.len() as int),
            final(buffer)@.len() == old(buffer)@.len(),
            final(buffer)@.subrange(0, count as int) == old(self).regs@.rx_fifo.subrange(
                0,
                count as int,
            ),
            final(buffer)@.subrange(count as int, old(buffer)@.len() as int) == old(buffer)@.subrange(count as int, old(buffer)@.len() as int),
            final(self).regs@ == (if old(self).config.config.clear_tx_on_write {
                state_after_tx_clear(state_after_read(old(self).regs@, count as int))
            } else {
                state_after_read(old(self).regs@, count as int)
            }),
            final(self).config == old(self).config,
            final(self).info == old(self).info,
            final(self).interrupt == old(self).interrupt,
            final(self).state == old(self).state,
    {
        // The FIFO empties as it is read; it is not reset here, which would
        // disturb the hardware's transaction state.
        let count = read_fifo(&mut self.regs, buffer);
        if self.config.config.clear_tx_on_write {
            driver::clear_tx_after_read(&mut self.regs);
        }
        count
    }

    /// The register address byte that the master sent, in register-based
    /// mode.
    pub fn read_register_address(&self) -> (addr: u8)
        ensures
            addr == self.regs@.rxfifo_raddr,
    {
        self.regs.rxfifo_raddr
    }

    /// Queues `buffer` for the master to read; call it before the master
    /// reads, or the slave stretches the clock until data is there. A
    /// zero-length buffer is refused. If the load fails with stretching on,
    /// the stretch is force-released so that the bus does not hang.
    pub fn write(&mut self, buffer: &[u8]) -> (res: Result<(), Error>)
        requires
            old(self).wf(),
        ensures
            final(self).wf(),
            buffer@.len() == 0 ==> res == Err::<(), Error>(Error::ZeroLengthInvalid)
                && final(self).regs@ == old(self).regs@,
            buffer@.len() > 0 ==> {
                let pre = state_before_load(old(self).regs@);
                let cfg = old(self).config.config;
                &&& res == load_result(pre, cfg, buffer@)
                &&& final(self).regs@ == (if res is Err {
                    state_after_force_release(
                        load_state(pre, cfg, buffer@),
                        cfg.clock_stretch_enable,
                    )
                } else {
                    load_state(pre, cfg, buffer@)
                })
            },
            final(self).config == old(self).config,
            final(self).info == old(self).info,
            final(self).interrupt == old(self).interrupt,
            final(self).state == old(self).state,
    {
        if buffer.len() == 0 {
            return Err(Error::ZeroLengthInvalid);
        }
        // Clear what earlier operations left pending, and make sure the
        // controller is a slave that starts transmitting on its own.
        self.regs.clear_all_interrupts();
        self.regs.ctr.ms_mode = false;
        self.regs.ctr.sda_force_out = true;
        self.regs.ctr.scl_force_out = true;
        self.regs.ctr.slv_tx_auto_start_en = true;

        let result = write_fifo(&mut self.regs, &self.config.config, buffer);

        // A failed load must not leave SCL held low.
        if result.is_err() && self.config.config.clock_stretch_enable {
            driver::force_release_scl_stretch(&mut self.regs, true);
        }
        result
    }

    /// Empties the TX FIFO, so that no stale data is sent in the next
    /// transaction.
    pub fn clear_tx_fifo(&mut self)
        requires
            old(self).wf(),
        ensures
            final(self).wf(),
            final(self).regs@ == (RegisterState {
                fifo_conf: FifoConf { tx_fifo_rst: false, ..old(self).regs@.fifo_conf },
                tx_fifo: Seq::empty(),
                ..old(self).regs@
            }),
            final(self).config == old(self).config,
            final(self).info == old(self).info,
            final(self).interrupt == old(self).interrupt,
            final(self).state == old(self).state,
    {
        self.regs.pulse_tx_fifo_reset();
    }

    /// Applies a new configuration. An invalid address is refused with
    /// [`ConfigError::AddressInvalid`] and changes nothing.
    pub fn apply_config(&mut self, config: &Config) -> (res: Result<(), ConfigError>)
        requires
            old(self).wf(),
        ensures
            final(self).wf(),
            res is Err <==> !config.address.is_valid(),
            res is Err ==> res == Err::<(), ConfigError>(ConfigError::AddressInvalid)
                && final(self).regs@ == old(self).regs@ && final(self).config == old(self).config,
            res is Ok ==> final(self).regs@ == state_after_setup(old(self).regs@, *config)
                && final(self).config == (DriverConfig { config: *config, ..old(self).config }),
            final(self).info == old(self).info,
            final(self).interrupt == old(self).interrupt,
            final(self).state == old(self).state,
    {
        if config.address.validate().is_err() {
            return Err(ConfigError::AddressInvalid);
        }
        self.config.config = *config;
        setup(&mut self.regs, config)
    }
}

impl I2c<Blocking> {
    /// Creates a slave driver on `peripheral`, whose register block is
    /// `regs`, and applies `config`. An invalid address is refused with
    /// [`ConfigError::AddressInvalid`].
    pub fn new(peripheral: Peripheral, regs: I2cRegisters, config: Config) -> (res: Result<
        Self,
        ConfigError,
    >)
        requires
            regs.wf(),
        ensures
            res is Err <==> !config.address.is_valid(),
            res is Err ==> res->Err_0 == ConfigError::AddressInvalid,
            res is Ok ==> {
                let i2c = res->Ok_0;
                &&& i2c.wf()
                &&& i2c.regs@ == state_after_setup(regs@, config)
                &&& i2c.info == Info::of(peripheral)
                &&& i2c.config == (DriverConfig {
                    config,
                    sda_pin: PinGuard { signal: Info::of(peripheral).sda_output, pin: None },
                    scl_pin: PinGuard { signal: Info::of(peripheral).scl_output, pin: None },
                })
                &&& i2c.interrupt == (InterruptLine { bound: None, enabled: None })
                &&& i2c.state.waker == AtomicWaker::new_spec()
            },
    {
        let info = Info::for_peripheral(peripheral);
        let sda_pin = PinGuard::new_unconnected(info.sda_output);
        let scl_pin = PinGuard::new_unconnected(info.scl_output);
        let mut i2c = I2c {
            regs,
            info,
            interrupt: InterruptLine::new(),
            state: State { waker: AtomicWaker::new() },
            config: DriverConfig { config, sda_pin, scl_pin },
            phantom: PhantomData,
        };
        match i2c.apply_config(&config) {
            Ok(()) => Ok(i2c),
            Err(e) => Err(e),
        }
    }

    /// Reconfigures the driver to operate asynchronously: the controller's
    /// asynchronous interrupt handler is installed.
    pub fn into_async(self) -> (r: I2c<Async>)
        requires
            self.wf(),
            self.info.async_handler.priority != Priority::Disabled,
        ensures
            r.wf(),
            r.regs@ == state_after_handler_install(self.regs@),
            r.interrupt == line_after_async(self.info),
            r.info == self.info,
            r.config == self.config,
            r.state == self.state,
    {
        let mut s = self;
        let handler = s.info.async_handler;
        s.set_interrupt_handler(handler);
        I2c {
            regs: s.regs,
            info: s.info,
            interrupt: s.interrupt,
            state: s.state,
            config: s.config,
            phantom: PhantomData,
        }
    }

    /// Registers an interrupt handler for the controller, replacing any
    /// earlier one. Its priority must not be `Disabled`.
    pub fn set_interrupt_handler(&mut self, handler: InterruptHandler)
        requires
            old(self).wf(),
            handler.priority != Priority::Disabled,
        ensures
            final(self).wf(),
            final(self).regs@ == state_after_handler_install(old(self).regs@),
            final(self).interrupt == (InterruptLine {
                bound: Some(handler.id),
                enabled: Some(handler.priority),
            }),
            final(self).config == old(self).config,
            final(self).info == old(self).info,
            final(self).state == old(self).state,
    {
        install_interrupt_handler(&mut self.regs, &mut self.interrupt, handler);
    }

    /// Enables the interrupts of the given events.
    pub fn listen(&mut self, interrupts: EventSet)
        requires
            old(self).wf(),
        ensures
            final(self).wf(),
            final(self).regs@ == (RegisterState {
                int_ena: listen_update(old(self).regs@.int_ena, interrupts, true),
                ..old(self).regs@
            }),
            final(self).config == old(self).config,
            final(self).info == old(self).info,
            final(self).interrupt == old(self).interrupt,
            final(self).state == old(self).state,
    {
        let info = self.info;
        info.enable_listen(&mut self.regs, interrupts, true);
    }

    /// Disables the interrupts of the given events.
    pub fn unlisten(&mut self, interrupts: EventSet)
        requires
            old(self).wf(),
        ensures
            final(self).wf(),
            final(self).regs@ == (RegisterState {
                int_ena: listen_update(old(self).regs@.int_ena, interrupts, false),
                ..old(self).regs@
            }),
            final(self).config == old(self).config,
            final(self).info == old(self).info,
            final(self).interrupt == old(self).interrupt,
            final(self).state == old(self).state,
    {
        let info = self.info;
        info.enable_listen(&mut self.regs, interrupts, false);
    }

    /// The events whose interrupts are asserted.
    pub fn interrupts(&mut self) -> (res: EventSet)
        ensures
            res == asserted_events(old(self).regs@.int_raw),
            final(self).regs@ == old(self).regs@,
            final(self).config == old(self).config,
            final(self).info == old(self).info,
            final(self).interrupt == old(self).interrupt,
            final(self).state == old(self).state,
    {
        self.info.interrupts(&self.regs)
    }

    /// Clears the asserted interrupts of the given events.
    pub fn clear_interrupts(&mut self, interrupts: EventSet)
        requires
            old(self).wf(),
        ensures
            final(self).wf(),
            final(self).regs@ == (RegisterState {
                int_raw: clear_update(old(self).regs@.int_raw, interrupts),
                ..old(self).regs@
            }),
            final(self).config == old(self).config,
            final(self).info == old(self).info,
            final(self).interrupt == old(self).interrupt,
            final(self).state == old(self).state,
    {
        let info = self.info;
        info.clear_interrupts(&mut self.regs, interrupts);
    }
}

impl I2c<Async> {
    /// Reconfigures the driver to operate blocking: the controller's
    /// interrupt is disabled.
    pub fn into_blocking(self) -> (r: I2c<Blocking>)
        ensures
            r.regs@ == self.regs@,
            r.interrupt == line_after_blocking(self.interrupt),
            r.info == self.info,
            r.config == self.config,
            r.state == self.state,
    {
        let mut s = self;
        s.interrupt.enabled = None;
        I2c {
            regs: s.regs,
            info: s.info,
            interrupt: s.interrupt,
            state: s.state,
            config: s.config,
            phantom: PhantomData,
        }
    }

    /// Begins an asynchronous read: the FIFOs are reset and a wait for
    /// received data starts. Once the wait is ready with `Ok`, collect the
    /// bytes with [`I2c::read_async_finish`].
    pub fn read_async_start(&mut self) -> (f: I2cFuture)
        requires
            old(self).wf(),
        ensures
            final(self).wf(),
            final(self).regs@ == ({
                let reset = state_after_reset_fifo(old(self).regs@);
                RegisterState {
                    int_ena: future_enable(reset.int_ena, EventSet::only_spec(Event::RxFifoFull)),
                    ..reset
                }
            }),
            f == (I2cFuture {
                events: EventSet::only_spec(Event::RxFifoFull),
                deadline_us: None,
                finished: false,
            }),
            final(self).config == old(self).config,
            final(self).info == old(self).info,
            final(self).interrupt == old(self).interrupt,
            final(self).state == old(self).state,
    {
        reset_fifo(&mut self.regs);
        I2cFuture::new(EventSet::only(Event::RxFifoFull), &mut self.regs, None)
    }

    /// Ends an asynchronous read: copies the received bytes into `buffer`
    /// (as many as the RX FIFO holds, at most its length) and returns their
    /// number.
    pub fn read_async_finish(&mut self, buffer: &mut [u8]) -> (count: usize)
        requires
            old(self).wf(),
        ensures
            final(self).wf(),
            count == min(old(buffer)@.len() as int, old(self).regs@.rx_fifo.len() as int),
            final(buffer)@.len() == old(buffer)@.len(),
            final(buffer)@.subrange(0, count as int) == old(self).regs@.rx_fifo.subrange(
                0,
                count as int,
            ),
            final(buffer)@.subrange(count as int, old(buffer)@.len() as int) == old(buffer)@.subrange(count as int, old(buffer)@.len() as int),
            final(self).regs@ == state_after_read(old(self).regs@, count as int),
            final(self).config == old(self).config,
            final(self).info == old(self).info,
            final(self).interrupt == old(self).interrupt,
            final(self).state == old(self).state,
    {
        read_fifo(&mut self.regs, buffer)
    }

    /// Begins an asynchronous write: pending interrupts are cleared, the TX
    /// FIFO is emptied and loaded with `buffer`, and a wait for the FIFO to
    /// drain starts. A failed load returns its error instead.
    pub fn write_async_start(&mut self, buffer: &[u8]) -> (res: Result<I2cFuture, Error>)
        requires
            old(self).wf(),
        ensures
            final(self).wf(),
            ({
                let pre = RegisterState {
                    int_raw: IntBits::none_spec(),
                    fifo_conf: FifoConf { tx_fifo_rst: false, ..old(self).regs@.fifo_conf },
                    tx_fifo: Seq::empty(),
                    ..old(self).regs@
                };
                let cfg = old(self).config.config;
                let loaded = load_state(pre, cfg, buffer@);
                match load_result(pre, cfg, buffer@) {
                    Err(e) => res == Err::<I2cFuture, Error>(e) && final(self).regs@ == loaded,
                    Ok(_) => {
                        &&& res == Ok::<I2cFuture, Error>(
                            I2cFuture {
                                events: EventSet::only_spec(Event::TxFifoEmpty),
                                deadline_us: None,
                                finished: false,
                            },
                        )
                        &&& final(self).regs@ == (RegisterState {
                            int_ena: future_enable(
                                loaded.int_ena,
                                EventSet::only_spec(Event::TxFifoEmpty),
                            ),
                            ..loaded
                        })
                    },
                }
            }),
            final(self).config == old(self).config,
            final(self).info == old(self).info,
            final(self).interrupt == old(self).interrupt,
            final(self).state == old(self).state,
    {
        // Drop pending errors and stale data before loading the new bytes.
        self.regs.clear_all_interrupts();
        self.regs.pulse_tx_fifo_reset();
        match write_fifo(&mut self.regs, &self.config.config, buffer) {
            Ok(()) => Ok(I2cFuture::new(EventSet::only(Event::TxFifoEmpty), &mut self.regs, None)),
            Err(e) => Err(e),
        }
    }

    /// Polls an asynchronous read or write at time `now_us`, registering the
    /// task's waker.
    pub fn poll_future(&mut self, future: &mut I2cFuture, now_us: u64) -> (r: Poll<
        Result<(), Error>,
    >)
        ensures
            r == super::future::completion(
                old(future).done_spec(old(self).regs@.int_raw),
                driver::error_of(old(self).regs@.int_raw),
                old(future).deadline_us,
                now_us,
            ),
            *final(future) == (I2cFuture {
                finished: old(future).finished || r is Ready,
                ..*old(future)
            }),
            final(self).regs@ == old(self).regs@,
            final(self).state.waker.registered,
            final(self).state.waker.wake_pending == (old(self).state.waker.wake_pending || (r is Pending
                && old(future).deadline_us is Some)),
            final(self).config == old(self).config,
            final(self).info == old(self).info,
            final(self).interrupt == old(self).interrupt,
    {
        future.poll(&self.regs, &mut self.state.waker, now_us)
    }
}

} // verus!
