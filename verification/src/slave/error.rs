//! Errors of the polling slave driver.

use vstd::prelude::*;

use super::address::I2cAddress;

verus! {

/// I2C-specific transmission errors.
#[derive(Debug, Clone, Copy, PartialEq, Eq, Hash, Structural)]
#[non_exhaustive]
pub enum Error {
    /// The transmission exceeded the FIFO size.
    FifoExceeded,
    /// The acknowledgment check failed.
    AcknowledgeCheckFailed,
    /// A timeout occurred during transmission.
    Timeout,
    /// The arbitration for the bus was lost.
    ArbitrationLost,
    /// The execution of the I2C command was incomplete.
    ExecutionIncomplete,
    /// Zero length read or write operation.
    ZeroLengthInvalid,
    /// The given address is invalid.
    AddressInvalid(I2cAddress),
    /// Bus is busy.
    BusBusy,
    /// TX FIFO overflow.
    TxFifoOverflow,
    /// RX FIFO underflow.
    RxFifoUnderflow,
}

/// The text that the derived `Debug` impl of `I2cAddress` writes for
/// `address`; its exact form is left open.
pub uninterp spec fn address_debug_text(address: I2cAddress) -> Seq<char>;

/// The message of `Error::AddressInvalid`.
pub open spec fn invalid_address_text(address: I2cAddress) -> Seq<char> {
    "The given address ("@ + address_debug_text(address) + ") is invalid"@
}

/// Formats the message of `Error::AddressInvalid` with `format!`, which writes
/// the fixed words around the address that its derived `Debug` impl writes.
/// The contract names that text and says nothing of its characters.
#[verifier::external_body]
fn format_invalid_address(address: I2cAddress) -> (res: String)
    ensures
        res@ == "The given address ("@ + address_debug_text(address) + ") is invalid"@,
{
    format!("The given address ({address:?}) is invalid")
}

/// The message of an invalid address starts with "The given address (" and
/// ends with ") is invalid", and two such messages are equal exactly when the
/// addresses are written alike.
pub proof fn lemma_address_text_framed(a: I2cAddress, b: I2cAddress)
    ensures
        invalid_address_text(a).len() >= 31,
        invalid_address_text(a).subrange(0, 19) == "The given address ("@,
        invalid_address_text(a).subrange(
            invalid_address_text(a).len() - 12,
            invalid_address_text(a).len() as int,
        ) == ") is invalid"@,
        invalid_address_text(a) == invalid_address_text(b) <==> address_debug_text(a)
            == address_debug_text(b),
{
    reveal_strlit("The given address (");
    reveal_strlit(") is invalid");
    let (ta, tb) = (invalid_address_text(a), invalid_address_text(b));
    let (da, db) = (address_debug_text(a), address_debug_text(b));
    assert(ta.subrange(0, 19) =~= "The given address ("@);
    assert(ta.subrange(ta.len() - 12, ta.len() as int) =~= ") is invalid"@);
    assert(ta.subrange(19, ta.len() - 12) =~= da);
    assert(tb.subrange(19, tb.len() - 12) =~= db);
}

impl Error {
    /// The human-readable description of the error.
    pub open spec fn text(self) -> Seq<char> {
        match self {
            Error::FifoExceeded => "The transmission exceeded the FIFO size"@,
            Error::AcknowledgeCheckFailed => "The acknowledgment check failed"@,
            Error::Timeout => "A timeout occurred during transmission"@,
            Error::ArbitrationLost => "The arbitration for the bus was lost"@,
            Error::ExecutionIncomplete => "The execution of the I2C command was incomplete"@,
            Error::ZeroLengthInvalid => "Zero length read or write operation"@,
            Error::AddressInvalid(address) => invalid_address_text(address),
            Error::BusBusy => "Bus is busy"@,
            Error::TxFifoOverflow => "TX FIFO overflow"@,
            Error::RxFifoUnderflow => "RX FIFO underflow"@,
        }
    }

    /// Describes the error in words.
    pub fn to_string(&self) -> (res: String)
        ensures
            res@ == self.text(),
    {
        match self {
            Error::FifoExceeded => "The transmission exceeded the FIFO size".to_owned(),
            Error::AcknowledgeCheckFailed => "The acknowledgment check failed".to_owned(),
            Error::Timeout => "A timeout occurred during transmission".to_owned(),
            Error::ArbitrationLost => "The arbitration for the bus was lost".to_owned(),
            Error::ExecutionIncomplete => {
                "The execution of the I2C command was incomplete".to_owned()
            },
            Error::ZeroLengthInvalid => "Zero length read or write operation".to_owned(),
            Error::AddressInvalid(address) => format_invalid_address(*address),
            Error::BusBusy => "Bus is busy".to_owned(),
            Error::TxFifoOverflow => "TX FIFO overflow".to_owned(),
            Error::RxFifoUnderflow => "RX FIFO underflow".to_owned(),
        }
    }
}

/// Every error has a description, and different errors have different
/// descriptions; two invalid-address errors differ in their descriptions
/// exactly when their addresses are written differently.
pub proof fn lemma_error_texts_distinct(e1: Error, e2: Error)
    ensures
        e1.text().len() > 0,
        e1 != e2 && !(e1 is AddressInvalid && e2 is AddressInvalid) ==> e1.text() != e2.text(),
        e1 is AddressInvalid && e2 is AddressInvalid ==> (e1.text() == e2.text()
            <==> address_debug_text(e1->AddressInvalid_0) == address_debug_text(
            e2->AddressInvalid_0,
        )),
{
    reveal_strlit("The transmission exceeded the FIFO size");
    reveal_strlit("The acknowledgment check failed");
    reveal_strlit("A timeout occurred during transmission");
    reveal_strlit("The arbitration for the bus was lost");
    reveal_strlit("The execution of the I2C command was incomplete");
    reveal_strlit("Zero length read or write operation");
    reveal_strlit("Bus is busy");
    reveal_strlit("TX FIFO overflow");
    reveal_strlit("RX FIFO underflow");
    reveal_strlit("The given address (");
    if let Error::AddressInvalid(a) = e1 {
        lemma_address_text_framed(a, a);
        assert(e1.text()[4] == "The given address ("@[4]);
        if let Error::AddressInvalid(b) = e2 {
            lemma_address_text_framed(a, b);
        }
    }
    if let Error::AddressInvalid(b) = e2 {
        lemma_address_text_framed(b, b);
        assert(e2.text()[4] == "The given address ("@[4]);
    }
}

/// I2C-specific configuration errors.
#[derive(Debug, Clone, Copy, PartialEq, Eq, Structural)]
#[non_exhaustive]
pub enum ConfigError {
    /// Provided address is not valid.
    AddressInvalid,
}

impl ConfigError {
    /// The human-readable description of the error.
    pub open spec fn text(self) -> Seq<char> {
        match self {
            ConfigError::AddressInvalid => "Provided address is invalid"@,
        }
    }

    /// Describes the error in words.
    pub fn to_string(&self) -> (res: String)
        ensures
            res@ == self.text(),
    {
        match self {
            ConfigError::AddressInvalid => "Provided address is invalid".to_owned(),
        }
    }
}

} // verus!
