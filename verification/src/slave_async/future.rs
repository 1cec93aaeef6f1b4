//! The read and write operations of the interrupt-driven driver, as futures
//! that the interrupt handler wakes.

use vstd::prelude::*;

use crate::regs::{FifoConf, I2C_FIFO_SIZE, I2cRegisters, RegisterState};
use crate::slave::driver::{min, release_scl_stretch, state_after_release};
use crate::task::{AtomicWaker, Poll};

use super::driver::{clear_tx_fifo, rx_fifo_count, tx_fifo_free};
use super::error::Error;
use super::state::{SharedState, State, TransactionState};

verus! {

/// Moves `count` bytes from the RX FIFO into `buffer`, starting at `at`.
fn take_bytes(regs: &mut I2cRegisters, buffer: &mut [u8], at: usize, count: usize)
    requires
        old(regs).wf(),
        count <= old(regs)@.rx_fifo.len(),
        at + count <= old(buffer)@.len(),
    ensures
        final(regs).wf(),
        final(regs)@ == (RegisterState {
            rx_fifo: old(regs)@.rx_fifo.skip(count as int),
            ..old(regs)@
        }),
        final(buffer)@ == old(buffer)@.take(at as int) + old(regs)@.rx_fifo.take(count as int)
            + old(buffer)@.skip(at + count),
{
    let ghost fifo0 = regs@.rx_fifo;
    let ghost regs0 = regs@;
    let ghost buf0 = buffer@;
    let len = buffer.len();
    let mut i: usize = 0;
    while i < count
        invariant
            regs.wf(),
            len == buffer@.len(),
            len == buf0.len(),
            i <= count,
            count <= fifo0.len(),
            at + count <= buf0.len(),
            regs@ == (RegisterState { rx_fifo: fifo0.skip(i as int), ..regs0 }),
            buffer@ == buf0.take(at as int) + fifo0.take(i as int) + buf0.skip(at + i),
        decreases count - i,
    {
        let byte = regs.read_data();
        buffer[at + i] = byte;
        assert(fifo0.skip(i as int).drop_first() =~= fifo0.skip(i + 1));
        assert(buffer@ =~= buf0.take(at as int) + fifo0.take(i + 1) + buf0.skip(at + i + 1));
        i = i + 1;
    }
}

/// Appends `count` bytes of `buffer`, starting at `from`, to the TX FIFO.
fn load_bytes(regs: &mut I2cRegisters, buffer: &[u8], from: usize, count: usize)
    requires
        old(regs).wf(),
        old(regs)@.tx_fifo.len() + count <= I2C_FIFO_SIZE,
        from + count <= buffer@.len(),
    ensures
        final(regs).wf(),
        final(regs)@ == (RegisterState {
            tx_fifo: old(regs)@.tx_fifo + buffer@.subrange(from as int, from + count),
            ..old(regs)@
        }),
{
    let ghost regs0 = regs@;
    let len = buffer.len();
    let mut i: usize = 0;
    while i < count
        invariant
            regs.wf(),
            len == buffer@.len(),
            i <= count,
            regs0.tx_fifo.len() + count <= I2C_FIFO_SIZE,
            from + count <= buffer@.len(),
            regs@ == (RegisterState {
                tx_fifo: regs0.tx_fifo + buffer@.subrange(from as int, from + i),
                ..regs0
            }),
        decreases count - i,
    {
        regs.write_data(buffer[from + i]);
        assert(regs0.tx_fifo + buffer@.subrange(from as int, from + i + 1) =~= (regs0.tx_fifo
            + buffer@.subrange(from as int, from + i)).push(buffer@[from + i]));
        i = i + 1;
    }
}

/// A waker slot once a task registered in it.
pub open spec fn registered(w: AtomicWaker) -> AtomicWaker {
    AtomicWaker { registered: true, ..w }
}

/// What one poll of a read does. The receiver's waker is registered. A
/// recorded error is taken and ends the read. Otherwise the bytes waiting in
/// the RX FIFO are moved into the buffer after those read so far (as many as
/// fit) and the RX index follows; a completed transaction ends the read with
/// the byte count it reports, at most the buffer's length, an errored one
/// with its error, and otherwise the read goes on, `Receiving` the bytes
/// read once there are any.
pub open spec fn read_polled(
    f0: ReadFuture,
    r0: RegisterState,
    s0: SharedState,
    b0: Seq<u8>,
    f1: ReadFuture,
    r1: RegisterState,
    s1: SharedState,
    b1: Seq<u8>,
    r: Poll<Result<usize, Error>>,
) -> bool {
    let s = SharedState { rx_waker: registered(s0.rx_waker), ..s0 };
    match s0.last_error {
        Some(e) => {
            &&& r == Poll::<Result<usize, Error>>::Ready(Err(e))
            &&& s1 == SharedState { last_error: None, ..s }
            &&& r1 == r0
            &&& b1 == b0
            &&& f1 == f0
        },
        None => {
            let br = f0.bytes_read;
            let fifo = r0.rx_fifo;
            let n = min(fifo.len() as int, b0.len() - br);
            let br2 = br + n;
            let ts = match s0.transaction_state {
                TransactionState::Complete { .. } => s0.transaction_state,
                TransactionState::Error(_) => s0.transaction_state,
                _ => if br2 > 0 {
                    TransactionState::Receiving { bytes_received: br2 as usize }
                } else {
                    s0.transaction_state
                },
            };
            &&& r == match s0.transaction_state {
                TransactionState::Complete { bytes_transferred } => Poll::Ready(
                    Ok(min(bytes_transferred as int, b0.len() as int) as usize),
                ),
                TransactionState::Error(e) => Poll::Ready(Err(e)),
                _ => Poll::Pending,
            }
            &&& f1 == ReadFuture { bytes_read: br2 as usize }
            &&& b1 == b0.take(br as int) + fifo.take(n) + b0.skip(br2)
            &&& r1 == (RegisterState { rx_fifo: fifo.skip(n), ..r0 })
            &&& s1 == (SharedState {
                rx_index: if fifo.len() > 0 {
                    br2 as usize
                } else {
                    s0.rx_index
                },
                transaction_state: ts,
                ..s
            })
        },
    }
}

/// What one poll of a write does. The transmitter's waker is registered. A
/// recorded error is taken and ends the write. Otherwise, if the TX FIFO has
/// room and bytes of `buffer` remain, as many as fit are loaded, the TX index
/// and the `Transmitting` count follow and the clock stretch is released.
/// Once all of `buffer` is loaded, a completed transaction ends the write
/// (emptying the TX FIFO) and an errored one ends it with its error; else the
/// write goes on.
pub open spec fn write_polled(
    f0: WriteFuture,
    r0: RegisterState,
    s0: SharedState,
    buffer: Seq<u8>,
    clock_stretch_enable: bool,
    f1: WriteFuture,
    r1: RegisterState,
    s1: SharedState,
    r: Poll<Result<(), Error>>,
) -> bool {
    let s = SharedState { tx_waker: registered(s0.tx_waker), ..s0 };
    match s0.last_error {
        Some(e) => {
            &&& r == Poll::<Result<(), Error>>::Ready(Err(e))
            &&& s1 == SharedState { last_error: None, ..s }
            &&& r1 == r0
            &&& f1 == f0
        },
        None => {
            let bw = f0.bytes_written;
            let free = I2C_FIFO_SIZE - r0.tx_fifo.len();
            let loads = free > 0 && bw < buffer.len();
            let n = if loads {
                min(buffer.len() - bw, free)
            } else {
                0
            };
            let bw2 = bw + n;
            let loaded = if loads {
                state_after_release(
                    RegisterState { tx_fifo: r0.tx_fifo + buffer.subrange(bw as int, bw2), ..r0 },
                    clock_stretch_enable,
                )
            } else {
                r0
            };
            let ts = if loads {
                TransactionState::Transmitting { bytes_sent: bw2 as usize }
            } else {
                s0.transaction_state
            };
            &&& f1 == WriteFuture { bytes_written: bw2 as usize }
            &&& s1 == (SharedState {
                tx_index: if loads {
                    bw2 as usize
                } else {
                    s0.tx_index
                },
                transaction_state: ts,
                ..s
            })
            &&& if bw2 >= buffer.len() && ts is Complete {
                &&& r == Poll::<Result<(), Error>>::Ready(Ok(()))
                &&& r1 == (RegisterState {
                    fifo_conf: FifoConf { tx_fifo_rst: false, ..loaded.fifo_conf },
                    tx_fifo: Seq::empty(),
                    ..loaded
                })
            } else if bw2 >= buffer.len() && ts is Error {
                &&& r == Poll::<Result<(), Error>>::Ready(Err(ts->Error_0))
                &&& r1 == loaded
            } else {
                &&& r == Poll::<Result<(), Error>>::Pending
                &&& r1 == loaded
            }
        },
    }
}

/// A read in progress.
#[derive(Debug, Clone, Copy, PartialEq, Eq, Structural)]
pub struct ReadFuture {
    /// Bytes copied into the caller's buffer so far.
    pub bytes_read: usize,
}

impl ReadFuture {
    /// Starts a read: the RX index returns to zero and the transaction to
    /// idle.
    pub fn new(state: &mut State) -> (f: ReadFuture)
        ensures
            f.bytes_read == 0,
            final(state)@ == (SharedState {
                rx_index: 0,
                transaction_state: TransactionState::Idle,
                ..old(state)@
            }),
    {
        state.set_rx_index(0);
        state.set_state(TransactionState::Idle);
        ReadFuture { bytes_read: 0 }
    }

    /// Polls the read: a recorded error ends it; otherwise the bytes waiting
    /// in the RX FIFO are copied into `buffer` (as many as fit), and a
    /// completed transaction ends it with the byte count it reports, at most
    /// the buffer's length.
    pub fn poll(&mut self, regs: &mut I2cRegisters, state: &mut State, buffer: &mut [u8]) -> (r:
        Poll<Result<usize, Error>>)
        requires
            old(regs).wf(),
            old(self).bytes_read <= old(buffer)@.len(),
        ensures
            final(regs).wf(),
            final(self).bytes_read <= final(buffer)@.len(),
            read_polled(
                *old(self),
                old(regs)@,
                old(state)@,
                old(buffer)@,
                *final(self),
                final(regs)@,
                final(state)@,
                final(buffer)@,
                r,
            ),
    {
        state.rx_waker.register();
        match state.take_error() {
            Some(error) => {
                return Poll::Ready(Err(error));
            },
            None => {},
        }
        // Copy what the FIFO holds, as far as the buffer has room.
        let available = rx_fifo_count(regs);
        let ghost fifo = regs@.rx_fifo;
        let ghost buf0 = buffer@;
        if available > 0 {
            let room = buffer.len() - self.bytes_read;
            let to_read = if available < room {
                available
            } else {
                room
            };
            let bytes_read = self.bytes_read;
            take_bytes(regs, buffer, bytes_read, to_read);
            self.bytes_read = self.bytes_read + to_read;
            state.set_rx_index(self.bytes_read);
        } else {
            assert(buffer@ =~= buf0.take(self.bytes_read as int) + fifo.take(0) + buf0.skip(
                self.bytes_read as int,
            ));
            assert(fifo.skip(0) =~= fifo);
        }
        match state.get_state() {
            TransactionState::Complete { bytes_transferred } => {
                let len = buffer.len();
                Poll::Ready(
                    Ok(
                        if bytes_transferred < len {
                            bytes_transferred
                        } else {
                            len
                        },
                    ),
                )
            },
            TransactionState::Error(e) => Poll::Ready(Err(e)),
            _ => {
                if self.bytes_read > 0 {
                    state.set_state(
                        TransactionState::Receiving { bytes_received: self.bytes_read },
                    );
                }
                Poll::Pending
            },
        }
    }
}

/// A write in progress.
#[derive(Debug, Clone, Copy, PartialEq, Eq, Structural)]
pub struct WriteFuture {
    /// Bytes of the caller's buffer loaded into the TX FIFO so far.
    pub bytes_written: usize,
}

impl WriteFuture {
    /// Starts a write: the TX index returns to zero, the TX FIFO is preloaded
    /// with as much of `buffer` as fits, the clock stretch is released, and
    /// the transaction is `Transmitting` the bytes loaded.
    pub fn new(
        regs: &mut I2cRegisters,
        state: &mut State,
        clock_stretch_enable: bool,
        buffer: &[u8],
    ) -> (f: WriteFuture)
        requires
            old(regs).wf(),
        ensures
            final(regs).wf(),
            ({
                let n = min(buffer@.len() as int, I2C_FIFO_SIZE - old(regs)@.tx_fifo.len());
                &&& f.bytes_written == n
                &&& final(regs)@ == state_after_release(
                    RegisterState {
                        tx_fifo: old(regs)@.tx_fifo + buffer@.take(n),
                        ..old(regs)@
                    },
                    clock_stretch_enable,
                )
                &&& final(state)@ == (SharedState {
                    tx_index: n as usize,
                    transaction_state: TransactionState::Transmitting { bytes_sent: n as usize },
                    ..old(state)@
                })
            }),
    {
        state.set_tx_index(0);
        state.set_state(TransactionState::Idle);
        let free_space = tx_fifo_free(regs);
        let to_write = if buffer.len() < free_space {
            buffer.len()
        } else {
            free_space
        };
        load_bytes(regs, buffer, 0, to_write);
        assert(buffer@.subrange(0, to_write as int) =~= buffer@.take(to_write as int));
        // Release the clock stretch so that the master can read.
        release_scl_stretch(regs, clock_stretch_enable);
        state.set_tx_index(to_write);
        state.set_state(TransactionState::Transmitting { bytes_sent: to_write });
        WriteFuture { bytes_written: to_write }
    }

    /// Polls the write: a recorded error ends it; otherwise more of `buffer`
    /// is loaded if the TX FIFO has room, and once all of it is loaded a
    /// completed transaction ends the write (emptying the TX FIFO).
    pub fn poll(
        &mut self,
        regs: &mut I2cRegisters,
        state: &mut State,
        clock_stretch_enable: bool,
        buffer: &[u8],
    ) -> (r: Poll<Result<(), Error>>)
        requires
            old(regs).wf(),
            old(self).bytes_written <= buffer@.len(),
        ensures
            final(regs).wf(),
            final(self).bytes_written <= buffer@.len(),
            write_polled(
                *old(self),
                old(regs)@,
                old(state)@,
                buffer@,
                clock_stretch_enable,
                *final(self),
                final(regs)@,
                final(state)@,
                r,
            ),
    {
        state.tx_waker.register();
        match state.take_error() {
            Some(error) => {
                return Poll::Ready(Err(error));
            },
            None => {},
        }
        // Load more data if the FIFO has room.
        let free_space = tx_fifo_free(regs);
        if free_space > 0 && self.bytes_written < buffer.len() {
            let remaining = buffer.len() - self.bytes_written;
            let to_write = if remaining < free_space {
                remaining
            } else {
                free_space
            };
            let from = self.bytes_written;
            load_bytes(regs, buffer, from, to_write);
            self.bytes_written = self.bytes_written + to_write;
            state.set_tx_index(self.bytes_written);
            state.set_state(TransactionState::Transmitting { bytes_sent: self.bytes_written });
            // Release the clock stretch after loading more data.
            release_scl_stretch(regs, clock_stretch_enable);
        }
        if self.bytes_written >= buffer.len() {
            match state.get_state() {
                TransactionState::Complete { .. } => {
                    // Empty the TX FIFO only once the transmission is over.
                    clear_tx_fifo(regs);
                    Poll::Ready(Ok(()))
                },
                TransactionState::Error(e) => Poll::Ready(Err(e)),
                _ => Poll::Pending,
            }
        } else {
            Poll::Pending
        }
    }
}

} // verus!
