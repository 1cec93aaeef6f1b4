//! State shared by the interrupt handler and the tasks of the
//! interrupt-driven driver.

use vstd::prelude::*;

use crate::task::AtomicWaker;

use super::error::Error;

verus! {

/// Size of the internal transfer buffers.
pub const DEFAULT_BUFFER_SIZE: usize = 256;

/// Where a slave transaction stands.
#[derive(Debug, Clone, Copy, PartialEq, Eq, Structural)]
pub enum TransactionState {
    /// Idle, waiting for the master.
    Idle,
    /// Address matched, transaction starting.
    AddressMatched {
        /// True if the master reads (the slave transmits).
        is_read: bool,
    },
    /// Receiving data from the master.
    Receiving {
        /// Bytes received so far.
        bytes_received: usize,
    },
    /// Transmitting data to the master.
    Transmitting {
        /// Bytes sent so far.
        bytes_sent: usize,
    },
    /// Clock stretching, waiting for software.
    ClockStretching,
    /// Transaction completed.
    Complete {
        /// Total bytes transferred.
        bytes_transferred: usize,
    },
    /// An error occurred.
    Error(Error),
}

/// State shared between the interrupt handler and the tasks.
///
/// Whoever holds it mutably has exclusive access; the handler and the tasks
/// reach it inside critical sections.
#[derive(Debug)]
pub struct State {
    /// Current transaction state.
    pub transaction_state: TransactionState,
    /// Buffer receiving data from the master, if one is attached.
    pub rx_buffer: Option<Vec<u8>>,
    /// Buffer of data for the master, if one is attached.
    pub tx_buffer: Option<Vec<u8>>,
    /// Bytes written into the RX buffer.
    pub rx_index: usize,
    /// Bytes taken from the TX buffer.
    pub tx_index: usize,
    /// Waker of the receiving task.
    pub rx_waker: AtomicWaker,
    /// Waker of the transmitting task.
    pub tx_waker: AtomicWaker,
    /// Last error that occurred, not yet taken.
    pub last_error: Option<Error>,
    /// Internal RX buffer, used when no buffer is attached.
    pub internal_rx_buffer: [u8; DEFAULT_BUFFER_SIZE],
    /// Internal TX buffer, used when no buffer is attached.
    pub internal_tx_buffer: [u8; DEFAULT_BUFFER_SIZE],
    /// Interrupts handled since initialisation (wrapping).
    pub interrupt_count: u32,
}

/// The abstract value of a [`State`]: its fields, with the buffers as
/// sequences.
#[verifier::ext_equal]
pub struct SharedState {
    /// Current transaction state.
    pub transaction_state: TransactionState,
    /// The attached RX buffer, if any.
    pub rx_buffer: Option<Seq<u8>>,
    /// The attached TX buffer, if any.
    pub tx_buffer: Option<Seq<u8>>,
    /// Bytes written into the RX buffer.
    pub rx_index: usize,
    /// Bytes taken from the TX buffer.
    pub tx_index: usize,
    /// Waker of the receiving task.
    pub rx_waker: AtomicWaker,
    /// Waker of the transmitting task.
    pub tx_waker: AtomicWaker,
    /// Last error not yet taken.
    pub last_error: Option<Error>,
    /// Internal RX buffer.
    pub internal_rx_buffer: Seq<u8>,
    /// Internal TX buffer.
    pub internal_tx_buffer: Seq<u8>,
    /// Interrupts handled since initialisation (wrapping).
    pub interrupt_count: u32,
}

/// The contents of an optional buffer.
pub open spec fn buffer_view(b: Option<Vec<u8>>) -> Option<Seq<u8>> {
    match b {
        Some(v) => Some(v@),
        None => None,
    }
}

impl View for State {
    type V = SharedState;

    open spec fn view(&self) -> SharedState {
        SharedState {
            transaction_state: self.transaction_state,
            rx_buffer: buffer_view(self.rx_buffer),
            tx_buffer: buffer_view(self.tx_buffer),
            rx_index: self.rx_index,
            tx_index: self.tx_index,
            rx_waker: self.rx_waker,
            tx_waker: self.tx_waker,
            last_error: self.last_error,
            internal_rx_buffer: self.internal_rx_buffer@,
            internal_tx_buffer: self.internal_tx_buffer@,
            interrupt_count: self.interrupt_count,
        }
    }
}

/// The interrupt counter after one more interrupt, wrapping at `u32::MAX`.
pub open spec fn next_count(n: u32) -> u32 {
    if n == u32::MAX {
        0
    } else {
        (n + 1) as u32
    }
}

/// A waker slot after a wake: a registered waker is consumed and the wake
/// delivered; with none registered nothing happens.
pub open spec fn woken(w: AtomicWaker) -> AtomicWaker {
    if w.registered {
        AtomicWaker { registered: false, wake_pending: true }
    } else {
        w
    }
}

/// The state a driver starts with: idle, nothing attached, no error, no
/// waker, internal buffers zeroed, no interrupt counted.
pub open spec fn initial_state() -> SharedState {
    SharedState {
        transaction_state: TransactionState::Idle,
        rx_buffer: None,
        tx_buffer: None,
        rx_index: 0,
        tx_index: 0,
        rx_waker: AtomicWaker::new_spec(),
        tx_waker: AtomicWaker::new_spec(),
        last_error: None,
        internal_rx_buffer: Seq::new(DEFAULT_BUFFER_SIZE as nat, |i: int| 0u8),
        internal_tx_buffer: Seq::new(DEFAULT_BUFFER_SIZE as nat, |i: int| 0u8),
        interrupt_count: 0,
    }
}

impl State {
    /// A fresh state (see [`initial_state`]).
    pub fn new() -> (s: State)
        ensures
            s@ == initial_state(),
    {
        let s = State {
            transaction_state: TransactionState::Idle,
            rx_buffer: None,
            tx_buffer: None,
            rx_index: 0,
            tx_index: 0,
            rx_waker: AtomicWaker::new(),
            tx_waker: AtomicWaker::new(),
            last_error: None,
            internal_rx_buffer: [0u8; DEFAULT_BUFFER_SIZE],
            internal_tx_buffer: [0u8; DEFAULT_BUFFER_SIZE],
            interrupt_count: 0,
        };
        assert(s.internal_rx_buffer@ =~= Seq::new(DEFAULT_BUFFER_SIZE as nat, |i: int| 0u8));
        assert(s.internal_tx_buffer@ =~= Seq::new(DEFAULT_BUFFER_SIZE as nat, |i: int| 0u8));
        s
    }

    /// Returns to idle: buffers detached, indices zero, error cleared.
    pub fn reset(&mut self)
        ensures
            final(self)@ == (SharedState {
                transaction_state: TransactionState::Idle,
                rx_buffer: None,
                tx_buffer: None,
                rx_index: 0,
                tx_index: 0,
                last_error: None,
                ..old(self)@
            }),
    {
        self.transaction_state = TransactionState::Idle;
        self.rx_buffer = None;
        self.tx_buffer = None;
        self.rx_index = 0;
        self.tx_index = 0;
        self.last_error = None;
    }

    /// The current transaction state.
    pub fn get_state(&self) -> (s: TransactionState)
        ensures
            s == self.transaction_state,
    {
        self.transaction_state
    }

    /// Sets the transaction state.
    pub fn set_state(&mut self, state: TransactionState)
        ensures
            final(self)@ == (SharedState { transaction_state: state, ..old(self)@ }),
    {
        self.transaction_state = state;
    }

    /// The RX index.
    pub fn get_rx_index(&self) -> (i: usize)
        ensures
            i == self.rx_index,
    {
        self.rx_index
    }

    /// Sets the RX index.
    pub fn set_rx_index(&mut self, index: usize)
        ensures
            final(self)@ == (SharedState { rx_index: index, ..old(self)@ }),
    {
        self.rx_index = index;
    }

    /// Increments the RX index and returns its new value.
    pub fn increment_rx_index(&mut self) -> (i: usize)
        requires
            old(self).rx_index < usize::MAX,
        ensures
            i == old(self).rx_index + 1,
            final(self)@ == (SharedState { rx_index: i, ..old(self)@ }),
    {
        self.rx_index = self.rx_index + 1;
        self.rx_index
    }

    /// The TX index.
    pub fn get_tx_index(&self) -> (i: usize)
        ensures
            i == self.tx_index,
    {
        self.tx_index
    }

    /// Sets the TX index.
    pub fn set_tx_index(&mut self, index: usize)
        ensures
            final(self)@ == (SharedState { tx_index: index, ..old(self)@ }),
    {
        self.tx_index = index;
    }

    /// Increments the TX index and returns its new value.
    pub fn increment_tx_index(&mut self) -> (i: usize)
        requires
            old(self).tx_index < usize::MAX,
        ensures
            i == old(self).tx_index + 1,
            final(self)@ == (SharedState { tx_index: i, ..old(self)@ }),
    {
        self.tx_index = self.tx_index + 1;
        self.tx_index
    }

    /// Records `error` as the last error and as the transaction state.
    pub fn set_error(&mut self, error: Error)
        ensures
            final(self)@ == (SharedState {
                last_error: Some(error),
                transaction_state: TransactionState::Error(error),
                ..old(self)@
            }),
    {
        self.last_error = Some(error);
        self.transaction_state = TransactionState::Error(error);
    }

    /// Takes the last error, leaving none.
    pub fn take_error(&mut self) -> (e: Option<Error>)
        ensures
            e == old(self).last_error,
            final(self)@ == (SharedState { last_error: None, ..old(self)@ }),
    {
        self.last_error.take()
    }

    /// The transaction ended, with success or an error.
    pub open spec fn complete_spec(self) -> bool {
        self.transaction_state is Complete || self.transaction_state is Error
    }

    /// True if the transaction ended, with success or an error.
    pub fn is_complete(&self) -> (b: bool)
        ensures
            b == self.complete_spec(),
    {
        matches!(
            self.get_state(),
            TransactionState::Complete { .. } | TransactionState::Error(_)
        )
    }

    /// Wakes the receiving task, if one waits.
    pub fn wake_rx(&mut self)
        ensures
            final(self)@ == (SharedState { rx_waker: woken(old(self).rx_waker), ..old(self)@ }),
    {
        self.rx_waker.wake();
    }

    /// Wakes the transmitting task, if one waits.
    pub fn wake_tx(&mut self)
        ensures
            final(self)@ == (SharedState { tx_waker: woken(old(self).tx_waker), ..old(self)@ }),
    {
        self.tx_waker.wake();
    }

    /// The number of interrupts handled since initialisation.
    pub fn get_interrupt_count(&self) -> (n: u32)
        ensures
            n == self.interrupt_count,
    {
        self.interrupt_count
    }

    /// Counts one more handled interrupt, wrapping at `u32::MAX`.
    pub fn increment_interrupt_counter(&mut self)
        ensures
            final(self)@ == (SharedState {
                interrupt_count: next_count(old(self).interrupt_count),
                ..old(self)@
            }),
    {
        self.interrupt_count = self.interrupt_count.wrapping_add(1);
    }
}

} // verus!
