//! Errors of the interrupt-driven slave driver.

use vstd::prelude::*;

use crate::slave::address::I2cAddress;
use crate::slave::error::{address_debug_text, invalid_address_text, lemma_address_text_framed};

verus! {

/// I2C-specific transmission errors.
#[derive(Debug, Clone, Copy, PartialEq, Eq, Hash, Structural)]
#[non_exhaustive]
pub enum Error {
    /// The transmission exceeded the FIFO size.
    FifoExceeded,
    /// The acknowledgment check failed.
    AcknowledgeCheckFailed,
    /// A timeout occurred during transmission.
    Timeout,
    /// The arbitration for the bus was lost.
    ArbitrationLost,
    /// The execution of the I2C command was incomplete.
    ExecutionIncomplete,
    /// Zero length read or write operation.
    ZeroLengthInvalid,
    /// The given address is invalid.
    AddressInvalid(I2cAddress),
    /// Bus is busy.
    BusBusy,
    /// TX FIFO overflow.
    TxFifoOverflow,
    /// TX FIFO underflow.
    TxFifoUnderflow,
    /// RX FIFO overflow.
    RxFifoOverflow,
    /// RX FIFO underflow.
    RxFifoUnderflow,
    /// Buffer too small for operation.
    BufferTooSmall,
    /// Driver not initialized.
    NotInitialized,
    /// Driver already in use.
    AlreadyInUse,
}

impl Error {
    /// The human-readable description of the error.
    pub open spec fn text(self) -> Seq<char> {
        match self {
            Error::FifoExceeded => "The transmission exceeded the FIFO size"@,
            Error::AcknowledgeCheckFailed => "The acknowledgment check failed"@,
            Error::Timeout => "A timeout occurred during transmission"@,
            Error::ArbitrationLost => "The arbitration for the bus was lost"@,
            Error::ExecutionIncomplete => "The execution of the I2C command was incomplete"@,
            Error::ZeroLengthInvalid => "Zero length read or write operation"@,
            Error::AddressInvalid(address) => invalid_address_text(address),
            Error::BusBusy => "Bus is busy"@,
            Error::TxFifoOverflow => "TX FIFO overflow"@,
            Error::TxFifoUnderflow => "TX FIFO underflow"@,
            Error::RxFifoOverflow => "RX FIFO overflow"@,
            Error::RxFifoUnderflow => "RX FIFO underflow"@,
            Error::BufferTooSmall => "Buffer too small for operation"@,
            Error::NotInitialized => "Driver not initialized"@,
            Error::AlreadyInUse => "Driver already in use"@,
        }
    }

    /// Describes the error in words.
    pub fn to_string(&self) -> (res: String)
        ensures
            res@ == self.text(),
    {
        match self {
            Error::FifoExceeded => "The transmission exceeded the FIFO size".to_owned(),
            Error::AcknowledgeCheckFailed => "The acknowledgment check failed".to_owned(),
            Error::Timeout => "A timeout occurred during transmission".to_owned(),
            Error::ArbitrationLost => "The arbitration for the bus was lost".to_owned(),
            Error::ExecutionIncomplete => {
                "The execution of the I2C command was incomplete".to_owned()
            },
            Error::ZeroLengthInvalid => "Zero length read or write operation".to_owned(),
            Error::AddressInvalid(address) => {
                crate::slave::error::Error::AddressInvalid(*address).to_string()
            },
            Error::BusBusy => "Bus is busy".to_owned(),
            Error::TxFifoOverflow => "TX FIFO overflow".to_owned(),
            Error::TxFifoUnderflow => "TX FIFO underflow".to_owned(),
            Error::RxFifoOverflow => "RX FIFO overflow".to_owned(),
            Error::RxFifoUnderflow => "RX FIFO underflow".to_owned(),
            Error::BufferTooSmall => "Buffer too small for operation".to_owned(),
            Error::NotInitialized => "Driver not initialized".to_owned(),
            Error::AlreadyInUse => "Driver already in use".to_owned(),
        }
    }
}

/// Every error has a description, and different errors have different
/// descriptions; two invalid-address errors differ in their descriptions
/// exactly when their addresses are written differently.
pub proof fn lemma_error_texts_distinct(e1: Error, e2: Error)
    ensures
        e1.text().len() > 0,
        e1 != e2 && !(e1 is AddressInvalid && e2 is AddressInvalid) ==> e1.text() != e2.text(),
        e1 is AddressInvalid && e2 is AddressInvalid ==> (e1.text() == e2.text()
            <==> address_debug_text(e1->AddressInvalid_0) == address_debug_text(
            e2->AddressInvalid_0,
        )),
{
    reveal_strlit("The transmission exceeded the FIFO size");
    reveal_strlit("The acknowledgment check failed");
    reveal_strlit("A timeout occurred during transmission");
    reveal_strlit("The arbitration for the bus was lost");
    reveal_strlit("The execution of the I2C command was incomplete");
    reveal_strlit("Zero length read or write operation");
    reveal_strlit("Bus is busy");
    reveal_strlit("TX FIFO overflow");
    reveal_strlit("TX FIFO underflow");
    reveal_strlit("RX FIFO overflow");
    reveal_strlit("RX FIFO underflow");
    reveal_strlit("Buffer too small for operation");
    reveal_strlit("Driver not initialized");
    reveal_strlit("Driver already in use");
    reveal_strlit("The given address (");
    if e1 != e2 && e1.text() == e2.text() {
        assert(e1.text()[0] == e2.text()[0]);
        assert(e1.text()[4] == e2.text()[4]);
        assert(e1.text()[7] == e2.text()[7]);
    }
    if let Error::AddressInvalid(a) = e1 {
        lemma_address_text_framed(a, a);
        assert(e1.text()[4] == "The given address ("@[4]);
        if let Error::AddressInvalid(b) = e2 {
            lemma_address_text_framed(a, b);
        }
    }
    if let Error::AddressInvalid(b) = e2 {
        lemma_address_text_framed(b, b);
        assert(e2.text()[4] == "The given address ("@[4]);
    }
}

/// I2C-specific configuration errors.
#[derive(Debug, Clone, Copy, PartialEq, Eq, Structural)]
#[non_exhaustive]
pub enum ConfigError {
    /// Provided address is not valid.
    AddressInvalid,
    /// FIFO threshold is invalid.
    InvalidFifoThreshold,
}

impl ConfigError {
    /// The human-readable description of the error.
    pub open spec fn text(self) -> Seq<char> {
        match self {
            ConfigError::AddressInvalid => "Provided address is invalid"@,
            ConfigError::InvalidFifoThreshold => "FIFO threshold is invalid"@,
        }
    }

    /// Describes the error in words.
    pub fn to_string(&self) -> (res: String)
        ensures
            res@ == self.text(),
    {
        match self {
            ConfigError::AddressInvalid => "Provided address is invalid".to_owned(),
            ConfigError::InvalidFifoThreshold => "FIFO threshold is invalid".to_owned(),
        }
    }
}

} // verus!
