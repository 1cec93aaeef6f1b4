//! Interrupt events of the interrupt-driven slave driver and sets of them.

use vstd::prelude::*;

verus! {

/// I2C slave events that can trigger interrupts.
#[derive(Debug, Clone, Copy, PartialEq, Eq, Hash, Structural)]
#[non_exhaustive]
pub enum Event {
    /// Slave address matched (transaction starting).
    AddressMatch,
    /// RX FIFO reached its threshold (data available).
    RxFifoThreshold,
    /// TX FIFO fell below its threshold (room available).
    TxFifoThreshold,
    /// A byte was received.
    ByteReceived,
    /// A byte was transmitted.
    ByteTransmitted,
    /// Transaction complete (STOP condition).
    TransComplete,
    /// STOP condition detected.
    StopDetected,
    /// START condition detected.
    StartDetected,
    /// Arbitration lost.
    ArbitrationLost,
    /// Timeout occurred.
    Timeout,
    /// RX FIFO overflow.
    RxFifoOverflow,
    /// TX FIFO underflow.
    TxFifoUnderflow,
}

/// A set of [`Event`]s.
#[derive(Debug, Clone, Copy, PartialEq, Eq, Structural)]
pub struct EventSet {
    /// Holds [`Event::AddressMatch`].
    pub address_match: bool,
    /// Holds [`Event::RxFifoThreshold`].
    pub rx_fifo_threshold: bool,
    /// Holds [`Event::TxFifoThreshold`].
    pub tx_fifo_threshold: bool,
    /// Holds [`Event::ByteReceived`].
    pub byte_received: bool,
    /// Holds [`Event::ByteTransmitted`].
    pub byte_transmitted: bool,
    /// Holds [`Event::TransComplete`].
    pub trans_complete: bool,
    /// Holds [`Event::StopDetected`].
    pub stop_detected: bool,
    /// Holds [`Event::StartDetected`].
    pub start_detected: bool,
    /// Holds [`Event::ArbitrationLost`].
    pub arbitration_lost: bool,
    /// Holds [`Event::Timeout`].
    pub timeout: bool,
    /// Holds [`Event::RxFifoOverflow`].
    pub rx_fifo_overflow: bool,
    /// Holds [`Event::TxFifoUnderflow`].
    pub tx_fifo_underflow: bool,
}

impl View for EventSet {
    type V = Set<Event>;

    open spec fn view(&self) -> Set<Event> {
        Set::new(|e: Event| self.has(e))
    }
}

impl EventSet {
    /// The set holds `e`.
    pub open spec fn has(self, e: Event) -> bool {
        match e {
            Event::AddressMatch => self.address_match,
            Event::RxFifoThreshold => self.rx_fifo_threshold,
            Event::TxFifoThreshold => self.tx_fifo_threshold,
            Event::ByteReceived => self.byte_received,
            Event::ByteTransmitted => self.byte_transmitted,
            Event::TransComplete => self.trans_complete,
            Event::StopDetected => self.stop_detected,
            Event::StartDetected => self.start_detected,
            Event::ArbitrationLost => self.arbitration_lost,
            Event::Timeout => self.timeout,
            Event::RxFifoOverflow => self.rx_fifo_overflow,
            Event::TxFifoUnderflow => self.tx_fifo_underflow,
        }
    }

    /// The set of the given membership flags.
    pub open spec fn filled(b: bool) -> EventSet {
        EventSet {
            address_match: b,
            rx_fifo_threshold: b,
            tx_fifo_threshold: b,
            byte_received: b,
            byte_transmitted: b,
            trans_complete: b,
            stop_detected: b,
            start_detected: b,
            arbitration_lost: b,
            timeout: b,
            rx_fifo_overflow: b,
            tx_fifo_underflow: b,
        }
    }

    /// The empty set.
    pub fn empty() -> (s: EventSet)
        ensures
            s == EventSet::filled(false),
            s@ == Set::<Event>::empty(),
    {
        let s = EventSet {
            address_match: false,
            rx_fifo_threshold: false,
            tx_fifo_threshold: false,
            byte_received: false,
            byte_transmitted: false,
            trans_complete: false,
            stop_detected: false,
            start_detected: false,
            arbitration_lost: false,
            timeout: false,
            rx_fifo_overflow: false,
            tx_fifo_underflow: false,
        };
        assert(s@ =~= Set::<Event>::empty());
        s
    }

    /// The set of all events.
    pub fn all() -> (s: EventSet)
        ensures
            s == EventSet::filled(true),
            s@ == Set::<Event>::full(),
    {
        let s = EventSet {
            address_match: true,
            rx_fifo_threshold: true,
            tx_fifo_threshold: true,
            byte_received: true,
            byte_transmitted: true,
            trans_complete: true,
            stop_detected: true,
            start_detected: true,
            arbitration_lost: true,
            timeout: true,
            rx_fifo_overflow: true,
            tx_fifo_underflow: true,
        };
        assert(s@ =~= Set::<Event>::full()) by {
            assert forall|e: Event| s@.contains(e) by {
                match e {
                    Event::AddressMatch => {},
                    Event::RxFifoThreshold => {},
                    Event::TxFifoThreshold => {},
                    Event::ByteReceived => {},
                    Event::ByteTransmitted => {},
                    Event::TransComplete => {},
                    Event::StopDetected => {},
                    Event::StartDetected => {},
                    Event::ArbitrationLost => {},
                    Event::Timeout => {},
                    Event::RxFifoOverflow => {},
                    Event::TxFifoUnderflow => {},
                }
            }
        }
        s
    }

    /// The set holding `e` alone.
    pub open spec fn only_spec(e: Event) -> EventSet {
        EventSet {
            address_match: e == Event::AddressMatch,
            rx_fifo_threshold: e == Event::RxFifoThreshold,
            tx_fifo_threshold: e == Event::TxFifoThreshold,
            byte_received: e == Event::ByteReceived,
            byte_transmitted: e == Event::ByteTransmitted,
            trans_complete: e == Event::TransComplete,
            stop_detected: e == Event::StopDetected,
            start_detected: e == Event::StartDetected,
            arbitration_lost: e == Event::ArbitrationLost,
            timeout: e == Event::Timeout,
            rx_fifo_overflow: e == Event::RxFifoOverflow,
            tx_fifo_underflow: e == Event::TxFifoUnderflow,
        }
    }

    /// The set holding `e` alone.
    pub fn only(e: Event) -> (s: EventSet)
        ensures
            s == EventSet::only_spec(e),
            s@ == Set::<Event>::empty().insert(e),
    {
        let s = EventSet {
            address_match: matches!(e, Event::AddressMatch),
            rx_fifo_threshold: matches!(e, Event::RxFifoThreshold),
            tx_fifo_threshold: matches!(e, Event::TxFifoThreshold),
            byte_received: matches!(e, Event::ByteReceived),
            byte_transmitted: matches!(e, Event::ByteTransmitted),
            trans_complete: matches!(e, Event::TransComplete),
            stop_detected: matches!(e, Event::StopDetected),
            start_detected: matches!(e, Event::StartDetected),
            arbitration_lost: matches!(e, Event::ArbitrationLost),
            timeout: matches!(e, Event::Timeout),
            rx_fifo_overflow: matches!(e, Event::RxFifoOverflow),
            tx_fifo_underflow: matches!(e, Event::TxFifoUnderflow),
        };
        assert(s@ =~= Set::<Event>::empty().insert(e));
        s
    }

    /// True if the set holds `e`.
    pub fn contains(&self, e: Event) -> (b: bool)
        ensures
            b == self@.contains(e),
    {
        match e {
            Event::AddressMatch => self.address_match,
            Event::RxFifoThreshold => self.rx_fifo_threshold,
            Event::TxFifoThreshold => self.tx_fifo_threshold,
            Event::ByteReceived => self.byte_received,
            Event::ByteTransmitted => self.byte_transmitted,
            Event::TransComplete => self.trans_complete,
            Event::StopDetected => self.stop_detected,
            Event::StartDetected => self.start_detected,
            Event::ArbitrationLost => self.arbitration_lost,
            Event::Timeout => self.timeout,
            Event::RxFifoOverflow => self.rx_fifo_overflow,
            Event::TxFifoUnderflow => self.tx_fifo_underflow,
        }
    }

    /// The union of two sets.
    pub open spec fn union_spec(self, other: EventSet) -> EventSet {
        EventSet {
            address_match: self.address_match || other.address_match,
            rx_fifo_threshold: self.rx_fifo_threshold || other.rx_fifo_threshold,
            tx_fifo_threshold: self.tx_fifo_threshold || other.tx_fifo_threshold,
            byte_received: self.byte_received || other.byte_received,
            byte_transmitted: self.byte_transmitted || other.byte_transmitted,
            trans_complete: self.trans_complete || other.trans_complete,
            stop_detected: self.stop_detected || other.stop_detected,
            start_detected: self.start_detected || other.start_detected,
            arbitration_lost: self.arbitration_lost || other.arbitration_lost,
            timeout: self.timeout || other.timeout,
            rx_fifo_overflow: self.rx_fifo_overflow || other.rx_fifo_overflow,
            tx_fifo_underflow: self.tx_fifo_underflow || other.tx_fifo_underflow,
        }
    }

    /// The union of two sets.
    pub fn union(self, other: EventSet) -> (s: EventSet)
        ensures
            s == self.union_spec(other),
            s@ == self@.union(other@),
    {
        let s = EventSet {
            address_match: self.address_match || other.address_match,
            rx_fifo_threshold: self.rx_fifo_threshold || other.rx_fifo_threshold,
            tx_fifo_threshold: self.tx_fifo_threshold || other.tx_fifo_threshold,
            byte_received: self.byte_received || other.byte_received,
            byte_transmitted: self.byte_transmitted || other.byte_transmitted,
            trans_complete: self.trans_complete || other.trans_complete,
            stop_detected: self.stop_detected || other.stop_detected,
            start_detected: self.start_detected || other.start_detected,
            arbitration_lost: self.arbitration_lost || other.arbitration_lost,
            timeout: self.timeout || other.timeout,
            rx_fifo_overflow: self.rx_fifo_overflow || other.rx_fifo_overflow,
            tx_fifo_underflow: self.tx_fifo_underflow || other.tx_fifo_underflow,
        };
        assert(s@ =~= self@.union(other@));
        s
    }
}

impl From<Event> for EventSet {
    fn from(e: Event) -> (s: EventSet) {
        EventSet::only(e)
    }
}

impl vstd::std_specs::convert::FromSpecImpl<Event> for EventSet {
    open spec fn obeys_from_spec() -> bool {
        true
    }

    open spec fn from_spec(e: Event) -> EventSet {
        EventSet::only_spec(e)
    }
}

} // verus!
