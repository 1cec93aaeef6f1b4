//! Configuration of the polling slave driver.

use vstd::prelude::*;

use super::address::I2cAddress;

verus! {

/// I2C slave driver configuration.
///
/// Start from [`Config::default`] and change single settings with the
/// `with_*` methods.
#[derive(Debug, Clone, Copy, PartialEq, Eq, Hash, Structural)]
#[non_exhaustive]
pub struct Config {
    /// The slave address (7-bit `0x00..=0x7F` or 10-bit `0x000..=0x3FF`).
    /// Default: the 7-bit address 0x55.
    pub address: I2cAddress,
    /// Enable clock stretching. Default: true.
    pub clock_stretch_enable: bool,
    /// Enable SDA filtering. Default: true.
    pub sda_filter_enable: bool,
    /// SDA filter threshold. Default: 7.
    pub sda_filter_threshold: u8,
    /// Enable SCL filtering. Default: true.
    pub scl_filter_enable: bool,
    /// SCL filter threshold. Default: 7.
    pub scl_filter_threshold: u8,
    /// Timeout of blocking reads, in milliseconds. Default: 1000.
    pub timeout_ms: u32,
    /// Register-based mode: the first byte after the address is kept apart as
    /// a register address instead of entering the RX FIFO. Default: false.
    pub register_based_mode: bool,
    /// Empty the TX FIFO whenever a read receives data from the master, so that
    /// no stale response stays queued. Default: false.
    pub clear_tx_on_write: bool,
}

impl Config {
    /// The default configuration.
    pub open spec fn default_spec() -> Config {
        Config {
            address: I2cAddress::SevenBit(0x55),
            clock_stretch_enable: true,
            sda_filter_enable: true,
            sda_filter_threshold: 7,
            scl_filter_enable: true,
            scl_filter_threshold: 7,
            timeout_ms: 1000,
            register_based_mode: false,
            clear_tx_on_write: false,
        }
    }

    /// Sets the slave address.
    pub fn with_address(self, address: I2cAddress) -> (r: Self)
        ensures
            r == (Config { address, ..self }),
    {
        Config { address, ..self }
    }

    /// Sets whether clock stretching is enabled.
    pub fn with_clock_stretch_enable(self, clock_stretch_enable: bool) -> (r: Self)
        ensures
            r == (Config { clock_stretch_enable, ..self }),
    {
        Config { clock_stretch_enable, ..self }
    }

    /// Sets whether SDA filtering is enabled.
    pub fn with_sda_filter_enable(self, sda_filter_enable: bool) -> (r: Self)
        ensures
            r == (Config { sda_filter_enable, ..self }),
    {
        Config { sda_filter_enable, ..self }
    }

    /// Sets the SDA filter threshold.
    pub fn with_sda_filter_threshold(self, sda_filter_threshold: u8) -> (r: Self)
        ensures
            r == (Config { sda_filter_threshold, ..self }),
    {
        Config { sda_filter_threshold, ..self }
    }

    /// Sets whether SCL filtering is enabled.
    pub fn with_scl_filter_enable(self, scl_filter_enable: bool) -> (r: Self)
        ensures
            r == (Config { scl_filter_enable, ..self }),
    {
        Config { scl_filter_enable, ..self }
    }

    /// Sets the SCL filter threshold.
    pub fn with_scl_filter_threshold(self, scl_filter_threshold: u8) -> (r: Self)
        ensures
            r == (Config { scl_filter_threshold, ..self }),
    {
        Config { scl_filter_threshold, ..self }
    }

    /// Sets the timeout of blocking reads, in milliseconds.
    pub fn with_timeout_ms(self, timeout_ms: u32) -> (r: Self)
        ensures
            r == (Config { timeout_ms, ..self }),
    {
        Config { timeout_ms, ..self }
    }

    /// Sets whether register-based mode is enabled.
    pub fn with_register_based_mode(self, register_based_mode: bool) -> (r: Self)
        ensures
            r == (Config { register_based_mode, ..self }),
    {
        Config { register_based_mode, ..self }
    }

    /// Sets whether reads empty the TX FIFO.
    pub fn with_clear_tx_on_write(self, clear_tx_on_write: bool) -> (r: Self)
        ensures
            r == (Config { clear_tx_on_write, ..self }),
    {
        Config { clear_tx_on_write, ..self }
    }
}

impl Default for Config {
    fn default() -> (r: Self)
        ensures
            r == Config::default_spec(),
    {
        Config {
            address: I2cAddress::SevenBit(0x55),
            clock_stretch_enable: true,
            sda_filter_enable: true,
            sda_filter_threshold: 7,
            scl_filter_enable: true,
            scl_filter_threshold: 7,
            timeout_ms: 1000,
            register_based_mode: false,
            clear_tx_on_write: false,
        }
    }
}

} // verus!
