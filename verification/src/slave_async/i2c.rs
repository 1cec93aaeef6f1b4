//! The interrupt-driven I2C slave driver.

use vstd::prelude::*;

use crate::periph::{InterruptLine, Peripheral, PinGuard, Priority, connect_pin, i2c_pin};
use crate::regs::{I2C_FIFO_SIZE, I2cRegisters, RegisterState};
use crate::task::Poll;

use super::config::Config;
use crate::slave::driver::{min, state_after_release};

use super::driver::{
    async_handler, bus_error, completed_bytes, handler_regs, handler_state, setup, state_after_setup,
};
use super::error::{ConfigError, Error};
use super::event::{Event, EventSet};
use super::future::{ReadFuture, WriteFuture, read_polled, write_polled};
use super::instance::{Info, bind_interrupt_handler, clear_update, listen_update};
use super::state::{SharedState, State, TransactionState, initial_state};

verus! {

/// Priority the controller's interrupt is enabled at when the driver starts.
pub const START_PRIORITY: Priority = Priority::Priority3;

/// The configuration of a driver with its pin connections.
#[derive(Debug, Clone, Copy, PartialEq, Eq, Structural)]
pub struct DriverConfig {
    /// The configuration applied.
    pub config: Config,
    /// The SDA connection.
    pub sda_pin: PinGuard,
    /// The SCL connection.
    pub scl_pin: PinGuard,
}

/// Interrupt-driven I2C slave driver.
///
/// `regs` is the controller's register block and `state` what it shares
/// with the interrupt handler, [`SlaveAsync::handle_interrupt`].
#[derive(Debug)]
pub struct SlaveAsync {
    /// The controller's register block.
    pub regs: I2cRegisters,
    /// Description of the controller.
    pub info: Info,
    /// The controller's interrupt-controller entry.
    pub interrupt: InterruptLine,
    /// State shared with the interrupt handler.
    pub state: State,
    /// Configuration and pins.
    pub config: DriverConfig,
}

/// The events whose interrupts the driver listens to: address match, RX
/// threshold, transaction complete and timeout.
pub open spec fn essential_events() -> EventSet {
    EventSet::only_spec(Event::AddressMatch).union_spec(
        EventSet::only_spec(Event::RxFifoThreshold),
    ).union_spec(EventSet::only_spec(Event::TransComplete)).union_spec(
        EventSet::only_spec(Event::Timeout),
    )
}

/// The register block once `new` has set the controller up for `config`:
/// configured, every event's interrupt disabled and cleared, then the
/// essential events' interrupts enabled.
pub open spec fn state_after_start(old: RegisterState, config: Config) -> RegisterState {
    let configured = state_after_setup(old, config);
    let all = EventSet::filled(true);
    let quiet = RegisterState {
        int_ena: listen_update(configured.int_ena, all, false),
        int_raw: clear_update(clear_update(configured.int_raw, all), all),
        ..configured
    };
    RegisterState { int_ena: listen_update(quiet.int_ena, essential_events(), true), ..quiet }
}

/// A bus error that the interrupt handler sees is what the waiting read and
/// the waiting write return on their next poll.
pub proof fn lemma_bus_error_reaches_tasks(
    r: RegisterState,
    s: SharedState,
    read: ReadFuture,
    rx: Seq<u8>,
    write: WriteFuture,
    tx: Seq<u8>,
    cs: bool,
)
    requires
        bus_error(r.int_raw) is Some,
    ensures
        forall|f1: ReadFuture, r1: RegisterState, s1: SharedState, b1: Seq<u8>, res: Poll<
            Result<usize, Error>,
        >|
            read_polled(read, handler_regs(r), handler_state(r, s), rx, f1, r1, s1, b1, res)
                ==> res == Poll::<Result<usize, Error>>::Ready(Err(bus_error(r.int_raw)->0)),
        forall|f1: WriteFuture, r1: RegisterState, s1: SharedState, res: Poll<Result<(), Error>>|
            write_polled(write, handler_regs(r), handler_state(r, s), tx, cs, f1, r1, s1, res)
                ==> res == Poll::<Result<(), Error>>::Ready(Err(bus_error(r.int_raw)->0)),
{
}

/// A transaction that the interrupt handler sees complete, with no error
/// pending, ends the waiting read on its next poll with the byte count the
/// state tracked (at most the buffer's length), and a registered reader is
/// woken.
pub proof fn lemma_completion_reaches_reader(
    r: RegisterState,
    s: SharedState,
    read: ReadFuture,
    rx: Seq<u8>,
)
    requires
        r.int_raw.trans_complete,
        bus_error(r.int_raw) is None,
        !r.int_raw.rxfifo_ovf,
        !r.int_raw.rxfifo_udf,
        s.last_error is None,
    ensures
        s.rx_waker.registered ==> handler_state(r, s).rx_waker.wake_pending,
        forall|f1: ReadFuture, r1: RegisterState, s1: SharedState, b1: Seq<u8>, res: Poll<
            Result<usize, Error>,
        >|
            read_polled(read, handler_regs(r), handler_state(r, s), rx, f1, r1, s1, b1, res)
                ==> res == Poll::<Result<usize, Error>>::Ready(
                Ok(
                    min(
                        completed_bytes(s.transaction_state, s.rx_index, r.rx_fifo.len()) as int,
                        rx.len() as int,
                    ) as usize,
                ),
            ),
{
}

/// A FIFO fault that the interrupt handler sees, with no bus error, is what
/// the task concerned returns on its next poll: an RX overflow the read, a
/// TX underflow (without an RX overflow) the write.
pub proof fn lemma_fifo_fault_reaches_task(
    r: RegisterState,
    s: SharedState,
    read: ReadFuture,
    rx: Seq<u8>,
    write: WriteFuture,
    tx: Seq<u8>,
    cs: bool,
)
    requires
        bus_error(r.int_raw) is None,
    ensures
        r.int_raw.rxfifo_ovf ==> forall|
            f1: ReadFuture,
            r1: RegisterState,
            s1: SharedState,
            b1: Seq<u8>,
            res: Poll<Result<usize, Error>>,
        |
            read_polled(read, handler_regs(r), handler_state(r, s), rx, f1, r1, s1, b1, res)
                ==> res == Poll::<Result<usize, Error>>::Ready(Err(Error::RxFifoOverflow)),
        !r.int_raw.rxfifo_ovf && r.int_raw.rxfifo_udf ==> forall|
            f1: WriteFuture,
            r1: RegisterState,
            s1: SharedState,
            res: Poll<Result<(), Error>>,
        |
            write_polled(write, handler_regs(r), handler_state(r, s), tx, cs, f1, r1, s1, res)
                ==> res == Poll::<Result<(), Error>>::Ready(Err(Error::TxFifoUnderflow)),
{
}

/// The byte count a completed transaction records: a transaction the state
/// tracked as receiving or transmitting counts the bytes tracked; any other
/// counts the bytes already read plus those still waiting in the RX FIFO.
pub proof fn lemma_completion_counts_bytes(r: RegisterState, s: SharedState)
    requires
        r.int_raw.trans_complete,
        !r.int_raw.arbitration_lost,
        !r.int_raw.time_out,
        !r.int_raw.rxfifo_ovf,
        !r.int_raw.rxfifo_udf,
        r.rx_fifo.len() <= I2C_FIFO_SIZE,
        s.rx_index <= usize::MAX - I2C_FIFO_SIZE,
    ensures
        handler_state(r, s).transaction_state is Complete,
        !(s.transaction_state is Receiving) && !(s.transaction_state is Transmitting)
            ==> handler_state(r, s).transaction_state->bytes_transferred == s.rx_index
            + r.rx_fifo.len(),
        s.transaction_state matches TransactionState::Receiving { bytes_received: n }
            ==> handler_state(r, s).transaction_state->bytes_transferred == n,
        s.transaction_state matches TransactionState::Transmitting { bytes_sent: n }
            ==> handler_state(r, s).transaction_state->bytes_transferred == n,
{
}

/// A read whose bytes all arrive, with the master's STOP, before its first
/// poll: once the interrupt is handled, the poll returns the number of bytes
/// the master wrote, and the buffer starts with them in order.
pub proof fn lemma_early_read_counts_all_bytes(r: RegisterState, s: SharedState, buffer: Seq<u8>)
    requires
        r.int_raw.trans_complete,
        !r.int_raw.arbitration_lost,
        !r.int_raw.time_out,
        !r.int_raw.rxfifo_ovf,
        !r.int_raw.rxfifo_udf,
        r.rx_fifo.len() <= I2C_FIFO_SIZE,
        r.rx_fifo.len() <= buffer.len(),
        s.transaction_state == TransactionState::Idle,
        s.rx_index == 0,
        s.last_error is None,
    ensures
        forall|f1: ReadFuture, r1: RegisterState, s1: SharedState, b1: Seq<u8>, res: Poll<
            Result<usize, Error>,
        >|
            read_polled(
                ReadFuture { bytes_read: 0 },
                handler_regs(r),
                handler_state(r, s),
                buffer,
                f1,
                r1,
                s1,
                b1,
                res,
            ) ==> res == Poll::<Result<usize, Error>>::Ready(Ok(r.rx_fifo.len() as usize))
                && b1.take(r.rx_fifo.len() as int) == r.rx_fifo,
{
    assert forall|f1: ReadFuture, r1: RegisterState, s1: SharedState, b1: Seq<u8>, res: Poll<
        Result<usize, Error>,
    >|
        read_polled(
            ReadFuture { bytes_read: 0 },
            handler_regs(r),
            handler_state(r, s),
            buffer,
            f1,
            r1,
            s1,
            b1,
            res,
        ) implies res == Poll::<Result<usize, Error>>::Ready(Ok(r.rx_fifo.len() as usize))
        && b1.take(r.rx_fifo.len() as int) == r.rx_fifo by {
        let n = r.rx_fifo.len() as int;
        assert(handler_regs(r).rx_fifo == r.rx_fifo);
        assert(b1 == buffer.take(0) + r.rx_fifo.take(n) + buffer.skip(n));
        assert(b1.take(n) =~= r.rx_fifo);
    }
}

impl SlaveAsync {
    /// The register block respects the FIFO depth.
    pub open spec fn wf(&self) -> bool {
        self.regs.wf()
    }

    /// Creates a driver on `peripheral`, whose register block is `regs`:
    /// applies `config`, installs the interrupt handler, enables the
    /// controller's interrupt at [`START_PRIORITY`] and listens to the
    /// essential events. An invalid configuration is refused with its error.
    pub fn new(peripheral: Peripheral, regs: I2cRegisters, config: Config) -> (res: Result<
        SlaveAsync,
        ConfigError,
    >)
        requires
            regs.wf(),
        ensures
            res is Err <==> config.validity() is Err,
            res is Err ==> res->Err_0 == config.validity()->Err_0,
            res is Ok ==> {
                let s = res->Ok_0;
                &&& s.wf()
                &&& s.regs@ == state_after_start(regs@, config)
                &&& s.info == Info::of(peripheral)
                &&& s.interrupt == (InterruptLine {
                    bound: Some(Info::of(peripheral).async_handler.id),
                    enabled: Some(START_PRIORITY),
                })
                &&& s.config == (DriverConfig {
                    config,
                    sda_pin: PinGuard { signal: Info::of(peripheral).sda_output, pin: None },
                    scl_pin: PinGuard { signal: Info::of(peripheral).scl_output, pin: None },
                })
                &&& s.state@ == initial_state()
            },
    {
        let info = Info::for_peripheral(peripheral);
        let sda_pin = PinGuard::new_unconnected(info.sda_output);
        let scl_pin = PinGuard::new_unconnected(info.scl_output);
        let mut slave = SlaveAsync {
            regs,
            info,
            interrupt: InterruptLine::new(),
            state: State::new(),
            config: DriverConfig { config, sda_pin, scl_pin },
        };
        match slave.apply_config(&config) {
            Ok(()) => {},
            Err(e) => {
                return Err(e);
            },
        }
        // Bind the handler; the interrupt stays disabled for now.
        let handler = slave.info.async_handler;
        bind_interrupt_handler(&slave.info, &mut slave.regs, &mut slave.interrupt, handler);
        // Drop what the configuration raised.
        slave.info.clear_interrupts(&mut slave.regs, EventSet::all());
        // Enable the controller's interrupt before any source.
        slave.interrupt.enabled = Some(START_PRIORITY);
        slave.setup_interrupts();
        Ok(slave)
    }

    /// Listens to the essential events.
    fn setup_interrupts(&mut self)
        requires
            old(self).wf(),
        ensures
            final(self).wf(),
            final(self).regs@ == (RegisterState {
                int_ena: listen_update(old(self).regs@.int_ena, essential_events(), true),
                ..old(self).regs@
            }),
            final(self).info == old(self).info,
            final(self).interrupt == old(self).interrupt,
            final(self).config == old(self).config,
            final(self).state@ == old(self).state@,
    {
        let events = EventSet::only(Event::AddressMatch).union(
            EventSet::only(Event::RxFifoThreshold),
        ).union(EventSet::only(Event::TransComplete)).union(EventSet::only(Event::Timeout));
        let info = self.info;
        info.enable_listen(&mut self.regs, events, true);
    }

    /// The interrupt handler of the driver (see [`async_handler`]).
    pub fn handle_interrupt(&mut self)
        requires
            old(self).wf(),
            old(self).state.rx_index <= usize::MAX - I2C_FIFO_SIZE,
        ensures
            final(self).wf(),
            final(self).regs@ == handler_regs(old(self).regs@),
            final(self).state@ == handler_state(old(self).regs@, old(self).state@),
            final(self).info == old(self).info,
            final(self).interrupt == old(self).interrupt,
            final(self).config == old(self).config,
    {
        async_handler(&mut self.regs, &mut self.state);
    }

    /// The number of interrupts handled since the driver started.
    pub fn get_interrupt_counter(&self) -> (n: u32)
        ensures
            n == self.state.interrupt_count,
    {
        self.state.get_interrupt_count()
    }

    /// Connects a GPIO pin to the SDA signal.
    pub fn with_sda(self, gpio: u8) -> (r: Self)
        ensures
            r.config.sda_pin == (PinGuard {
                signal: self.info.sda_output,
                pin: Some(i2c_pin(gpio, self.info.sda_input, self.info.sda_output)),
            }),
            r.config.scl_pin == self.config.scl_pin,
            r.config.config == self.config.config,
            r.regs@ == self.regs@,
            r.info == self.info,
            r.interrupt == self.interrupt,
    {
        let mut s = self;
        let input = s.info.sda_input;
        let output = s.info.sda_output;
        connect_pin(gpio, input, output, &mut s.config.sda_pin);
        s
    }

    /// Connects a GPIO pin to the SCL signal.
    pub fn with_scl(self, gpio: u8) -> (r: Self)
        ensures
            r.config.scl_pin == (PinGuard {
                signal: self.info.scl_output,
                pin: Some(i2c_pin(gpio, self.info.scl_input, self.info.scl_output)),
            }),
            r.config.sda_pin == self.config.sda_pin,
            r.config.config == self.config.config,
            r.regs@ == self.regs@,
            r.info == self.info,
            r.interrupt == self.interrupt,
    {
        let mut s = self;
        let input = s.info.scl_input;
        let output = s.info.scl_output;
        connect_pin(gpio, input, output, &mut s.config.scl_pin);
        s
    }

    /// Sets the priority the controller's interrupt runs at. An enabled
    /// interrupt moves to `priority` (`Disabled` turns it off); a disabled one
    /// stays off.
    pub fn with_interrupt_priority(self, priority: Priority) -> (r: Self)
        ensures
            r.interrupt == (if self.interrupt.enabled is Some {
                InterruptLine {
                    enabled: if priority == Priority::Disabled {
                        None
                    } else {
                        Some(priority)
                    },
                    ..self.interrupt
                }
            } else {
                self.interrupt
            }),
            r.regs@ == self.regs@,
            r.info == self.info,
            r.config == self.config,
            r.state@ == self.state@,
    {
        let mut s = self;
        if s.interrupt.enabled.is_some() {
            s.interrupt.enabled = if matches!(priority, Priority::Disabled) {
                None
            } else {
                Some(priority)
            };
        }
        s
    }

    /// Begins reading data sent by the master: a zero-length buffer is
    /// refused; otherwise the RX index returns to zero and the transaction to
    /// idle. Poll the read with [`SlaveAsync::poll_read`].
    pub fn read_async_start(&mut self, buffer_len: usize) -> (res: Result<ReadFuture, Error>)
        ensures
            buffer_len == 0 ==> res == Err::<ReadFuture, Error>(Error::ZeroLengthInvalid)
                && final(self).state@ == old(self).state@,
            buffer_len > 0 ==> res == Ok::<ReadFuture, Error>(ReadFuture { bytes_read: 0 })
                && final(self).state@ == (SharedState {
                rx_index: 0,
                transaction_state: TransactionState::Idle,
                ..old(self).state@
            }),
            final(self).regs@ == old(self).regs@,
            final(self).info == old(self).info,
            final(self).interrupt == old(self).interrupt,
            final(self).config == old(self).config,
    {
        if buffer_len == 0 {
            return Err(Error::ZeroLengthInvalid);
        }
        Ok(ReadFuture::new(&mut self.state))
    }

    /// Polls a read begun by [`SlaveAsync::read_async_start`] (see
    /// [`ReadFuture::poll`]).
    pub fn poll_read(&mut self, future: &mut ReadFuture, buffer: &mut [u8]) -> (r: Poll<
        Result<usize, Error>,
    >)
        requires
            old(self).wf(),
            old(future).bytes_read <= old(buffer)@.len(),
        ensures
            final(self).wf(),
            final(future).bytes_read <= final(buffer)@.len(),
            read_polled(
                *old(future),
                old(self).regs@,
                old(self).state@,
                old(buffer)@,
                *final(future),
                final(self).regs@,
                final(self).state@,
                final(buffer)@,
                r,
            ),
            final(self).info == old(self).info,
            final(self).interrupt == old(self).interrupt,
            final(self).config == old(self).config,
    {
        future.poll(&mut self.regs, &mut self.state, buffer)
    }

    /// Begins writing data for the master: a zero-length buffer is refused;
    /// otherwise the TX FIFO is preloaded (see [`WriteFuture::new`]). Poll the
    /// write with [`SlaveAsync::poll_write`].
    pub fn write_async_start(&mut self, buffer: &[u8]) -> (res: Result<WriteFuture, Error>)
        requires
            old(self).wf(),
        ensures
            final(self).wf(),
            buffer@.len() == 0 ==> res == Err::<WriteFuture, Error>(Error::ZeroLengthInvalid)
                && final(self).regs@ == old(self).regs@ && final(self).state@ == old(self).state@,
            buffer@.len() > 0 ==> {
                let n = min(buffer@.len() as int, I2C_FIFO_SIZE - old(self).regs@.tx_fifo.len());
                &&& res == Ok::<WriteFuture, Error>(WriteFuture { bytes_written: n as usize })
                &&& final(self).regs@ == state_after_release(
                    RegisterState {
                        tx_fifo: old(self).regs@.tx_fifo + buffer@.take(n),
                        ..old(self).regs@
                    },
                    old(self).config.config.clock_stretch_enable,
                )
                &&& final(self).state@ == (SharedState {
                    tx_index: n as usize,
                    transaction_state: TransactionState::Transmitting { bytes_sent: n as usize },
                    ..old(self).state@
                })
            },
            final(self).info == old(self).info,
            final(self).interrupt == old(self).interrupt,
            final(self).config == old(self).config,
    {
        if buffer.len() == 0 {
            return Err(Error::ZeroLengthInvalid);
        }
        let cs = self.config.config.clock_stretch_enable;
        Ok(WriteFuture::new(&mut self.regs, &mut self.state, cs, buffer))
    }

    /// Polls a write begun by [`SlaveAsync::write_async_start`] (see
    /// [`WriteFuture::poll`]).
    pub fn poll_write(&mut self, future: &mut WriteFuture, buffer: &[u8]) -> (r: Poll<
        Result<(), Error>,
    >)
        requires
            old(self).wf(),
            old(future).bytes_written <= buffer@.len(),
        ensures
            final(self).wf(),
            final(future).bytes_written <= buffer@.len(),
            write_polled(
                *old(future),
                old(self).regs@,
                old(self).state@,
                buffer@,
                old(self).config.config.clock_stretch_enable,
                *final(future),
                final(self).regs@,
                final(self).state@,
                r,
            ),
            final(self).info == old(self).info,
            final(self).interrupt == old(self).interrupt,
            final(self).config == old(self).config,
    {
        let cs = self.config.config.clock_stretch_enable;
        future.poll(&mut self.regs, &mut self.state, cs, buffer)
    }

    /// The register address byte that the master sent, in register-based
    /// mode.
    pub fn read_register_address(&self) -> (addr: u8)
        ensures
            addr == self.regs@.rxfifo_raddr,
    {
        self.regs.rxfifo_raddr
    }

    /// Applies a new configuration. An invalid address is refused with
    /// [`ConfigError::AddressInvalid`] and changes nothing. Otherwise the
    /// configuration is stored, then checked in full: invalid FIFO thresholds
    /// are refused with [`ConfigError::InvalidFifoThreshold`], leaving the
    /// registers as they were.
    pub fn apply_config(&mut self, config: &Config) -> (res: Result<(), ConfigError>)
        requires
            old(self).wf(),
        ensures
            final(self).wf(),
            res == config.validity(),
            !config.address.is_valid() ==> final(self).config == old(self).config,
            config.address.is_valid() ==> final(self).config == (DriverConfig {
                config: *config,
                ..old(self).config
            }),
            res is Err ==> final(self).regs@ == old(self).regs@,
            res is Ok ==> final(self).regs@ == state_after_setup(old(self).regs@, *config),
            final(self).info == old(self).info,
            final(self).interrupt == old(self).interrupt,
            final(self).state@ == old(self).state@,
    {
        if config.address.validate().is_err() {
            return Err(ConfigError::AddressInvalid);
        }
        self.config.config = *config;
        setup(&mut self.regs, config)
    }

    /// Stops the driver: every event's interrupt is disabled and cleared and
    /// the shared state returns to idle.
    pub fn deinit(&mut self)
        requires
            old(self).wf(),
        ensures
            final(self).wf(),
            final(self).regs@ == (RegisterState {
                int_ena: listen_update(old(self).regs@.int_ena, EventSet::filled(true), false),
                int_raw: clear_update(old(self).regs@.int_raw, EventSet::filled(true)),
                ..old(self).regs@
            }),
            final(self).state@ == (SharedState {
                transaction_state: TransactionState::Idle,
                rx_buffer: None,
                tx_buffer: None,
                rx_index: 0,
                tx_index: 0,
                last_error: None,
                ..old(self).state@
            }),
            final(self).info == old(self).info,
            final(self).interrupt == old(self).interrupt,
            final(self).config == old(self).config,
    {
        let info = self.info;
        info.enable_listen(&mut self.regs, EventSet::all(), false);
        info.clear_interrupts(&mut self.regs, EventSet::all());
        self.state.reset();
    }
}

} // verus!
