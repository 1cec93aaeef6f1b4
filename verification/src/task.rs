//! Poll results and waker slots of the asynchronous operations.

use vstd::prelude::*;

verus! {

/// Result of polling an operation once.
#[derive(Debug, PartialEq, Eq)]
pub enum Poll<T> {
    /// The operation finished with this value.
    Ready(T),
    /// The operation is still under way.
    Pending,
}

impl<T> Poll<T> {
    /// True if the operation finished.
    pub fn is_ready(&self) -> (b: bool)
        ensures
            b == (self is Ready),
    {
        matches!(self, Poll::Ready(_))
    }

    /// True if the operation is still under way.
    pub fn is_pending(&self) -> (b: bool)
        ensures
            b == (self is Pending),
    {
        matches!(self, Poll::Pending)
    }
}

/// Slot for the waker of a task that waits on an interrupt.
///
/// A task registers its waker before it sleeps; the interrupt handler wakes
/// it, which takes the waker out of the slot and leaves a wake request for the
/// executor.
#[derive(Debug, Clone, Copy, PartialEq, Eq, Structural)]
pub struct AtomicWaker {
    /// A task's waker is in the slot.
    pub registered: bool,
    /// A wake is requested and not yet delivered.
    pub wake_pending: bool,
}

impl AtomicWaker {
    /// An empty slot.
    pub open spec fn new_spec() -> AtomicWaker {
        AtomicWaker { registered: false, wake_pending: false }
    }

    /// An empty slot.
    pub fn new() -> (w: AtomicWaker)
        ensures
            w == AtomicWaker::new_spec(),
    {
        AtomicWaker { registered: false, wake_pending: false }
    }

    /// Puts the current task's waker in the slot.
    pub fn register(&mut self)
        ensures
            *final(self) == (AtomicWaker { registered: true, ..*old(self) }),
    {
        self.registered = true;
    }

    /// Wakes the task whose waker is in the slot, if any.
    pub fn wake(&mut self)
        ensures
            old(self).registered ==> *final(self) == (AtomicWaker {
                registered: false,
                wake_pending: true,
            }),
            !old(self).registered ==> *final(self) == *old(self),
    {
        if self.registered {
            self.registered = false;
            self.wake_pending = true;
        }
    }
}

} // verus!
