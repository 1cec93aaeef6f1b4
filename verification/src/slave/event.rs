//! Interrupt events of the polling slave driver and sets of them.

use vstd::prelude::*;

verus! {

/// Events that the slave can be told to listen for.
#[derive(Debug, Clone, Copy, PartialEq, Eq, Hash, Structural)]
#[non_exhaustive]
pub enum Event {
    /// The slave received data from the master (RX FIFO watermark).
    RxFifoFull,
    /// The slave needs data to send to the master (TX FIFO watermark).
    TxFifoEmpty,
    /// A byte has been received.
    ByteReceived,
    /// A byte has been transmitted.
    ByteTransmitted,
    /// The transaction is complete.
    TransComplete,
    /// The slave was addressed.
    SlaveAddressed,
    /// A STOP condition was detected.
    StopDetected,
    /// A START condition was detected.
    StartDetected,
}

/// A set of [`Event`]s.
#[derive(Debug, Clone, Copy, PartialEq, Eq, Structural)]
pub struct EventSet {
    /// Holds [`Event::RxFifoFull`].
    pub rx_fifo_full: bool,
    /// Holds [`Event::TxFifoEmpty`].
    pub tx_fifo_empty: bool,
    /// Holds [`Event::ByteReceived`].
    pub byte_received: bool,
    /// Holds [`Event::ByteTransmitted`].
    pub byte_transmitted: bool,
    /// Holds [`Event::TransComplete`].
    pub trans_complete: bool,
    /// Holds [`Event::SlaveAddressed`].
    pub slave_addressed: bool,
    /// Holds [`Event::StopDetected`].
    pub stop_detected: bool,
    /// Holds [`Event::StartDetected`].
    pub start_detected: bool,
}

impl View for EventSet {
    type V = Set<Event>;

    open spec fn view(&self) -> Set<Event> {
        Set::new(|e: Event| self.has(e))
    }
}

impl EventSet {
    /// The set holds `e`.
    pub open spec fn has(self, e: Event) -> bool {
        match e {
            Event::RxFifoFull => self.rx_fifo_full,
            Event::TxFifoEmpty => self.tx_fifo_empty,
            Event::ByteReceived => self.byte_received,
            Event::ByteTransmitted => self.byte_transmitted,
            Event::TransComplete => self.trans_complete,
            Event::SlaveAddressed => self.slave_addressed,
            Event::StopDetected => self.stop_detected,
            Event::StartDetected => self.start_detected,
        }
    }

    /// The empty set.
    pub fn empty() -> (s: EventSet)
        ensures
            s@ == Set::<Event>::empty(),
    {
        let s = EventSet {
            rx_fifo_full: false,
            tx_fifo_empty: false,
            byte_received: false,
            byte_transmitted: false,
            trans_complete: false,
            slave_addressed: false,
            stop_detected: false,
            start_detected: false,
        };
        assert(s@ =~= Set::<Event>::empty());
        s
    }

    /// The set of all events.
    pub open spec fn all_spec() -> EventSet {
        EventSet {
            rx_fifo_full: true,
            tx_fifo_empty: true,
            byte_received: true,
            byte_transmitted: true,
            trans_complete: true,
            slave_addressed: true,
            stop_detected: true,
            start_detected: true,
        }
    }

    /// The set of all events.
    pub fn all() -> (s: EventSet)
        ensures
            s == EventSet::all_spec(),
            s@ == Set::<Event>::full(),
    {
        let s = EventSet {
            rx_fifo_full: true,
            tx_fifo_empty: true,
            byte_received: true,
            byte_transmitted: true,
            trans_complete: true,
            slave_addressed: true,
            stop_detected: true,
            start_detected: true,
        };
        assert(s@ =~= Set::<Event>::full()) by {
            assert forall|e: Event| s@.contains(e) by {
                match e {
                    Event::RxFifoFull => {},
                    Event::TxFifoEmpty => {},
                    Event::ByteReceived => {},
                    Event::ByteTransmitted => {},
                    Event::TransComplete => {},
                    Event::SlaveAddressed => {},
                    Event::StopDetected => {},
                    Event::StartDetected => {},
                }
            }
        }
        s
    }

    /// The set holding `e` alone.
    pub open spec fn only_spec(e: Event) -> EventSet {
        EventSet {
            rx_fifo_full: e == Event::RxFifoFull,
            tx_fifo_empty: e == Event::TxFifoEmpty,
            byte_received: e == Event::ByteReceived,
            byte_transmitted: e == Event::ByteTransmitted,
            trans_complete: e == Event::TransComplete,
            slave_addressed: e == Event::SlaveAddressed,
            stop_detected: e == Event::StopDetected,
            start_detected: e == Event::StartDetected,
        }
    }

    /// The set holding `e` alone.
    pub fn only(e: Event) -> (s: EventSet)
        ensures
            s == EventSet::only_spec(e),
            s@ == Set::<Event>::empty().insert(e),
    {
        let s = EventSet {
            rx_fifo_full: matches!(e, Event::RxFifoFull),
            tx_fifo_empty: matches!(e, Event::TxFifoEmpty),
            byte_received: matches!(e, Event::ByteReceived),
            byte_transmitted: matches!(e, Event::ByteTransmitted),
            trans_complete: matches!(e, Event::TransComplete),
            slave_addressed: matches!(e, Event::SlaveAddressed),
            stop_detected: matches!(e, Event::StopDetected),
            start_detected: matches!(e, Event::StartDetected),
        };
        assert(s@ =~= Set::<Event>::empty().insert(e));
        s
    }

    /// Adds `e` to the set.
    pub fn insert(&mut self, e: Event)
        ensures
            final(self)@ == old(self)@.insert(e),
    {
        match e {
            Event::RxFifoFull => self.rx_fifo_full = true,
            Event::TxFifoEmpty => self.tx_fifo_empty = true,
            Event::ByteReceived => self.byte_received = true,
            Event::ByteTransmitted => self.byte_transmitted = true,
            Event::TransComplete => self.trans_complete = true,
            Event::SlaveAddressed => self.slave_addressed = true,
            Event::StopDetected => self.stop_detected = true,
            Event::StartDetected => self.start_detected = true,
        }
        assert(final(self)@ =~= old(self)@.insert(e));
    }

    /// True if the set holds `e`.
    pub fn contains(&self, e: Event) -> (b: bool)
        ensures
            b == self@.contains(e),
    {
        match e {
            Event::RxFifoFull => self.rx_fifo_full,
            Event::TxFifoEmpty => self.tx_fifo_empty,
            Event::ByteReceived => self.byte_received,
            Event::ByteTransmitted => self.byte_transmitted,
            Event::TransComplete => self.trans_complete,
            Event::SlaveAddressed => self.slave_addressed,
            Event::StopDetected => self.stop_detected,
            Event::StartDetected => self.start_detected,
        }
    }

    /// The union of two sets.
    pub fn union(self, other: EventSet) -> (s: EventSet)
        ensures
            s@ == self@.union(other@),
    {
        let s = EventSet {
            rx_fifo_full: self.rx_fifo_full || other.rx_fifo_full,
            tx_fifo_empty: self.tx_fifo_empty || other.tx_fifo_empty,
            byte_received: self.byte_received || other.byte_received,
            byte_transmitted: self.byte_transmitted || other.byte_transmitted,
            trans_complete: self.trans_complete || other.trans_complete,
            slave_addressed: self.slave_addressed || other.slave_addressed,
            stop_detected: self.stop_detected || other.stop_detected,
            start_detected: self.start_detected || other.start_detected,
        };
        assert(s@ =~= self@.union(other@));
        s
    }

    /// True if the two sets have no event in common.
    pub fn is_disjoint(&self, other: &EventSet) -> (b: bool)
        ensures
            b == self@.disjoint(other@),
    {
        let b = !(self.rx_fifo_full && other.rx_fifo_full) && !(self.tx_fifo_empty
            && other.tx_fifo_empty) && !(self.byte_received && other.byte_received) && !(
        self.byte_transmitted && other.byte_transmitted) && !(self.trans_complete
            && other.trans_complete) && !(self.slave_addressed && other.slave_addressed) && !(
        self.stop_detected && other.stop_detected) && !(self.start_detected
            && other.start_detected);
        proof {
            if !b {
                if self.rx_fifo_full && other.rx_fifo_full {
                    assert(self@.contains(Event::RxFifoFull) && other@.contains(Event::RxFifoFull));
                } else if self.tx_fifo_empty && other.tx_fifo_empty {
                    assert(self@.contains(Event::TxFifoEmpty));
                } else if self.byte_received && other.byte_received {
                    assert(self@.contains(Event::ByteReceived));
                } else if self.byte_transmitted && other.byte_transmitted {
                    assert(self@.contains(Event::ByteTransmitted));
                } else if self.trans_complete && other.trans_complete {
                    assert(self@.contains(Event::TransComplete));
                } else if self.slave_addressed && other.slave_addressed {
                    assert(self@.contains(Event::SlaveAddressed));
                } else if self.stop_detected && other.stop_detected {
                    assert(self@.contains(Event::StopDetected));
                } else {
                    assert(self@.contains(Event::StartDetected));
                }
            }
        }
        b
    }
}

impl From<Event> for EventSet {
    fn from(e: Event) -> (s: EventSet) {
        EventSet::only(e)
    }
}

impl vstd::std_specs::convert::FromSpecImpl<Event> for EventSet {
    open spec fn obeys_from_spec() -> bool {
        true
    }

    open spec fn from_spec(e: Event) -> EventSet {
        EventSet::only_spec(e)
    }
}

} // verus!
