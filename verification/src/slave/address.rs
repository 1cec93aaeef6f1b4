//! Slave addresses in 7-bit and 10-bit form.

use vstd::prelude::*;

use super::error::Error;

verus! {

/// Largest right-aligned 7-bit address.
pub const SEVEN_BIT_MAX: u16 = 0x7F;

/// Largest right-aligned 10-bit address.
pub const TEN_BIT_MAX: u16 = 0x3FF;

/// Representation of an I2C slave address.
///
/// Addresses can be created from `u8`, `u16`, or `i32` with `.into()`:
/// - `u8` values give 7-bit addresses;
/// - `u16` values give a 7-bit address up to 0x7F, otherwise a 10-bit one,
///   keeping the low ten bits of values above 0x3FF;
/// - `i32` values are taken by absolute value, then as for `u16`.
#[derive(Debug, Clone, Copy, PartialEq, Eq, Hash, Structural)]
#[non_exhaustive]
pub enum I2cAddress {
    /// 7-bit address, right-aligned (`0x00..=0x7F`).
    SevenBit(u8),
    /// 10-bit address, right-aligned (`0x000..=0x3FF`).
    TenBit(u16),
}

/// The address that the `u16` conversion gives for `value`.
pub open spec fn address_from_u16(value: u16) -> I2cAddress {
    if value <= 0x7F {
        I2cAddress::SevenBit(value as u8)
    } else if value <= 0x3FF {
        I2cAddress::TenBit(value)
    } else {
        I2cAddress::TenBit((value % 1024) as u16)
    }
}

/// The absolute value of `value`, as `i32::unsigned_abs` computes it.
pub open spec fn abs_i32(value: i32) -> nat {
    if value < 0 {
        (-(value as int)) as nat
    } else {
        value as nat
    }
}

/// The address that the `i32` conversion gives for `value`.
pub open spec fn address_from_i32(value: i32) -> I2cAddress {
    let magnitude = abs_i32(value);
    if magnitude <= 0x7F {
        I2cAddress::SevenBit(magnitude as u8)
    } else if magnitude <= 0x3FF {
        I2cAddress::TenBit(magnitude as u16)
    } else {
        I2cAddress::TenBit((magnitude % 1024) as u16)
    }
}

impl I2cAddress {
    /// The numeric value of the address, whatever its mode.
    pub open spec fn value(self) -> nat {
        match self {
            I2cAddress::SevenBit(a) => a as nat,
            I2cAddress::TenBit(a) => a as nat,
        }
    }

    /// True if the address is a 10-bit one.
    pub open spec fn ten_bit(self) -> bool {
        self is TenBit
    }

    /// The address fits the range of its mode.
    pub open spec fn is_valid(self) -> bool {
        match self {
            I2cAddress::SevenBit(a) => a <= 0x7F,
            I2cAddress::TenBit(a) => a <= 0x3FF,
        }
    }

    /// Checks that the address fits the range of its mode.
    pub fn validate(&self) -> (res: Result<(), Error>)
        ensures
            res is Ok <==> self.is_valid(),
            res is Err ==> res == Err::<(), Error>(Error::AddressInvalid(*self)),
    {
        match self {
            I2cAddress::SevenBit(addr) => {
                if *addr > 0x7F {
                    return Err(Error::AddressInvalid(*self));
                }
            },
            I2cAddress::TenBit(addr) => {
                if *addr > 0x3FF {
                    return Err(Error::AddressInvalid(*self));
                }
            },
        }
        Ok(())
    }

    /// Returns true if this is a 10-bit address.
    pub fn is_ten_bit(&self) -> (res: bool)
        ensures
            res == self.ten_bit(),
    {
        matches!(self, I2cAddress::TenBit(_))
    }

    /// Returns the address value as `u16`.
    pub fn as_u16(&self) -> (res: u16)
        ensures
            res as nat == self.value(),
    {
        match self {
            I2cAddress::SevenBit(addr) => *addr as u16,
            I2cAddress::TenBit(addr) => *addr,
        }
    }
}

impl From<u8> for I2cAddress {
    fn from(value: u8) -> (res: Self) {
        I2cAddress::SevenBit(value)
    }
}

impl vstd::std_specs::convert::FromSpecImpl<u8> for I2cAddress {
    open spec fn obeys_from_spec() -> bool {
        true
    }

    open spec fn from_spec(v: u8) -> Self {
        I2cAddress::SevenBit(v)
    }
}

impl From<u16> for I2cAddress {
    fn from(value: u16) -> (res: Self) {
        if value <= 0x7F {
            I2cAddress::SevenBit(value as u8)
        } else if value <= 0x3FF {
            I2cAddress::TenBit(value)
        } else {
            // Values beyond the 10-bit range keep their low ten bits.
            let low: u16 = value & 0x3FF;
            assert(low == value % 1024) by (bit_vector)
                requires
                    low == value & 0x3FF,
            ;
            I2cAddress::TenBit(low)
        }
    }
}

impl vstd::std_specs::convert::FromSpecImpl<u16> for I2cAddress {
    open spec fn obeys_from_spec() -> bool {
        true
    }

    open spec fn from_spec(v: u16) -> Self {
        address_from_u16(v)
    }
}

/// The absolute value of `value` as an unsigned number.
fn unsigned_abs(value: i32) -> (res: u32)
    ensures
        res as nat == abs_i32(value),
{
    if value < 0 {
        (0i64 - value as i64) as u32
    } else {
        value as u32
    }
}

impl From<i32> for I2cAddress {
    fn from(value: i32) -> (res: Self) {
        let unsigned = unsigned_abs(value);
        if unsigned <= 0x7F {
            I2cAddress::SevenBit(unsigned as u8)
        } else if unsigned <= 0x3FF {
            I2cAddress::TenBit(unsigned as u16)
        } else {
            // Values beyond the 10-bit range keep their low ten bits.
            let low: u32 = unsigned & 0x3FF;
            assert(low == unsigned % 1024) by (bit_vector)
                requires
                    low == unsigned & 0x3FF,
            ;
            I2cAddress::TenBit(low as u16)
        }
    }
}

impl vstd::std_specs::convert::FromSpecImpl<i32> for I2cAddress {
    open spec fn obeys_from_spec() -> bool {
        true
    }

    open spec fn from_spec(v: i32) -> Self {
        address_from_i32(v)
    }
}

/// Every address that the `u16` conversion gives is valid, and it keeps the
/// low ten bits of the value: all of it when the value is at most 0x3FF.
pub proof fn lemma_from_u16_valid(value: u16)
    ensures
        address_from_u16(value).is_valid(),
        address_from_u16(value).value() == value % 1024,
        address_from_u16(value).ten_bit() <==> value > 0x7F,
{
}

/// Every address that the `i32` conversion gives is valid, and a number and
/// its negation give the same address.
pub proof fn lemma_from_i32_valid_and_symmetric(value: i32)
    requires
        value != i32::MIN,
    ensures
        address_from_i32(value).is_valid(),
        address_from_i32(value) == address_from_i32((-value) as i32),
{
}

/// For magnitudes that fit in 16 bits, the `i32` conversion is the `u16`
/// conversion of the absolute value.
pub proof fn lemma_from_i32_is_from_u16_of_abs(value: i32)
    requires
        abs_i32(value) <= 0xFFFF,
    ensures
        address_from_i32(value) == address_from_u16(abs_i32(value) as u16),
{
}

} // verus!
