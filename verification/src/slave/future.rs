//! The wait behind the asynchronous reads and writes of the polling driver.

use vstd::prelude::*;

use crate::regs::{I2cRegisters, IntBits, RegisterState};
use crate::task::{AtomicWaker, Poll};

use super::driver::{check_errors, error_of, reset_fifo, state_after_reset_fifo};
use super::error::Error;
use super::event::EventSet;
use super::info::{asserted_events, interrupts, listen_update};

verus! {

/// Waits until one of a set of events is asserted, an error shows, or a
/// deadline passes.
#[derive(Debug, Clone, Copy, PartialEq, Eq, Structural)]
pub struct I2cFuture {
    /// The events that end the wait.
    pub events: EventSet,
    /// Time after which the wait fails, in microseconds.
    pub deadline_us: Option<u64>,
    /// The future has been polled to completion.
    pub finished: bool,
}

/// What polling the wait gives: `done` tells whether one of the awaited
/// events is asserted, `error` what the raw interrupt bits report. A timeout
/// reported with the events asserted does not fail the operation.
pub open spec fn completion(
    done: bool,
    error: Result<(), Error>,
    deadline: Option<u64>,
    now: u64,
) -> Poll<Result<(), Error>> {
    if done {
        if error == Err::<(), Error>(Error::Timeout) {
            Poll::Ready(Ok(()))
        } else {
            Poll::Ready(error)
        }
    } else if error is Err {
        Poll::Ready(error)
    } else if deadline is Some && now > deadline->0 {
        Poll::Ready(Err(Error::Timeout))
    } else {
        Poll::Pending
    }
}

/// The enable bits that a new wait for `events` sets: the events' own bits,
/// arbitration loss and bus timeout.
pub open spec fn future_enable(old: IntBits, events: EventSet) -> IntBits {
    IntBits { arbitration_lost: true, time_out: true, ..listen_update(old, events, true) }
}

impl I2cFuture {
    /// Starts waiting for `events`: their interrupts, with arbitration loss and
    /// bus timeout, are enabled.
    pub fn new(events: EventSet, regs: &mut I2cRegisters, deadline_us: Option<u64>) -> (f:
        I2cFuture)
        requires
            old(regs).wf(),
        ensures
            final(regs).wf(),
            final(regs)@ == (RegisterState {
                int_ena: future_enable(old(regs)@.int_ena, events),
                ..old(regs)@
            }),
            f == (I2cFuture { events, deadline_us, finished: false }),
    {
        super::info::enable_listen(regs, events, true);
        regs.int_ena.arbitration_lost = true;
        regs.int_ena.time_out = true;
        I2cFuture::new_blocking(events, deadline_us)
    }

    /// A wait for `events` that enables no interrupt.
    pub fn new_blocking(events: EventSet, deadline_us: Option<u64>) -> (f: I2cFuture)
        ensures
            f == (I2cFuture { events, deadline_us, finished: false }),
    {
        I2cFuture { events, deadline_us, finished: false }
    }

    /// One of the awaited events is asserted.
    pub open spec fn done_spec(&self, raw: IntBits) -> bool {
        !asserted_events(raw)@.disjoint(self.events@)
    }

    /// True if one of the awaited events is asserted.
    pub fn is_done(&self, regs: &I2cRegisters) -> (b: bool)
        ensures
            b == self.done_spec(regs@.int_raw),
    {
        !interrupts(regs).is_disjoint(&self.events)
    }

    /// Checks once whether the wait is over, at time `now_us`; a finished
    /// wait is marked so.
    pub fn poll_completion(&mut self, regs: &I2cRegisters, now_us: u64) -> (r: Poll<
        Result<(), Error>,
    >)
        ensures
            r == completion(
                old(self).done_spec(regs@.int_raw),
                error_of(regs@.int_raw),
                old(self).deadline_us,
                now_us,
            ),
            *final(self) == (I2cFuture { finished: old(self).finished || r is Ready, ..*old(self) }),
    {
        let error = check_errors(regs);
        let result = if self.is_done(regs) {
            let result = if matches!(error, Err(Error::Timeout)) {
                Ok(())
            } else {
                error
            };
            Poll::Ready(result)
        } else if error.is_err() {
            Poll::Ready(error)
        } else if self.deadline_us.is_some() && now_us > self.deadline_us.unwrap() {
            Poll::Ready(Err(Error::Timeout))
        } else {
            Poll::Pending
        };
        if result.is_ready() {
            self.finished = true;
        }
        result
    }

    /// Polls the wait from a task: its waker is registered first, and a wait
    /// with a deadline that is still pending asks to be polled again.
    pub fn poll(&mut self, regs: &I2cRegisters, waker: &mut AtomicWaker, now_us: u64) -> (r: Poll<
        Result<(), Error>,
    >)
        ensures
            r == completion(
                old(self).done_spec(regs@.int_raw),
                error_of(regs@.int_raw),
                old(self).deadline_us,
                now_us,
            ),
            *final(self) == (I2cFuture { finished: old(self).finished || r is Ready, ..*old(self) }),
            final(waker).registered,
            final(waker).wake_pending == (old(waker).wake_pending || (r is Pending
                && old(self).deadline_us is Some)),
    {
        waker.register();
        let result = self.poll_completion(regs, now_us);
        if result.is_pending() && self.deadline_us.is_some() {
            // Wake at once so the deadline is checked again.
            waker.wake_pending = true;
        }
        result
    }

    /// Abandons the wait. A wait dropped before it finished is checked once
    /// more; if it is still pending or failed by timeout, the FIFOs are reset.
    pub fn cancel(&mut self, regs: &mut I2cRegisters, now_us: u64)
        requires
            old(regs).wf(),
        ensures
            final(regs).wf(),
            ({
                let r = completion(
                    old(self).done_spec(old(regs)@.int_raw),
                    error_of(old(regs)@.int_raw),
                    old(self).deadline_us,
                    now_us,
                );
                if !old(self).finished && (r is Pending || r == Poll::<Result<(), Error>>::Ready(
                    Err(Error::Timeout),
                )) {
                    final(regs)@ == state_after_reset_fifo(old(regs)@)
                } else {
                    final(regs)@ == old(regs)@
                }
            }),
    {
        if !self.finished {
            let result = self.poll_completion(regs, now_us);
            if result.is_pending() || matches!(result, Poll::Ready(Err(Error::Timeout))) {
                reset_fifo(regs);
            }
        }
    }
}

} // verus!
