//! Configuration of the interrupt-driven slave driver.

use vstd::prelude::*;

use crate::periph::Priority;
use crate::regs::I2C_FIFO_SIZE;
use crate::slave::address::I2cAddress;

use super::error::ConfigError;

verus! {

/// I2C slave driver configuration.
#[derive(Debug, Clone, Copy, PartialEq, Eq, Hash, Structural)]
#[non_exhaustive]
pub struct Config {
    /// The slave address (7-bit `0x00..=0x7F` or 10-bit `0x000..=0x3FF`).
    /// Default: the 7-bit address 0x55.
    pub address: I2cAddress,
    /// Enable clock stretching, to hold the master while the slave prepares
    /// data. Some masters handle stretching poorly. Default: true.
    pub clock_stretch_enable: bool,
    /// Enable SDA filtering. Default: true.
    pub sda_filter_enable: bool,
    /// SDA filter threshold, in APB clock cycles. Default: 7.
    pub sda_filter_threshold: u8,
    /// Enable SCL filtering. Default: true.
    pub scl_filter_enable: bool,
    /// SCL filter threshold, in APB clock cycles. Default: 7.
    pub scl_filter_threshold: u8,
    /// The RX interrupt fires when the RX FIFO holds this many bytes; at most
    /// the FIFO size. Default: 16.
    pub rx_fifo_threshold: u8,
    /// The TX interrupt fires when the TX FIFO has this much room; at most
    /// the FIFO size. Default: 16.
    pub tx_fifo_threshold: u8,
    /// Register-based mode: the first byte after the address is kept apart as
    /// a register address. Default: false.
    pub register_based_mode: bool,
    /// Safeguard timeout of operations, in milliseconds. Default: 1000.
    pub timeout_ms: u32,
    /// Interrupt priority. Default: `Priority1`.
    pub interrupt_priority: Priority,
}

impl Config {
    /// The default configuration.
    pub open spec fn default_spec() -> Config {
        Config {
            address: I2cAddress::SevenBit(0x55),
            clock_stretch_enable: true,
            sda_filter_enable: true,
            sda_filter_threshold: 7,
            scl_filter_enable: true,
            scl_filter_threshold: 7,
            rx_fifo_threshold: 16,
            tx_fifo_threshold: 16,
            register_based_mode: false,
            timeout_ms: 1000,
            interrupt_priority: Priority::Priority1,
        }
    }

    /// What `validate` gives for this configuration.
    pub open spec fn validity(self) -> Result<(), ConfigError> {
        if !self.address.is_valid() {
            Err(ConfigError::AddressInvalid)
        } else if self.rx_fifo_threshold > I2C_FIFO_SIZE || self.tx_fifo_threshold
            > I2C_FIFO_SIZE {
            Err(ConfigError::InvalidFifoThreshold)
        } else {
            Ok(())
        }
    }

    /// Checks the configuration: the address must fit its mode, and both FIFO
    /// thresholds must be at most the FIFO size. The address is checked
    /// first.
    pub fn validate(&self) -> (res: Result<(), ConfigError>)
        ensures
            res == self.validity(),
    {
        if self.address.validate().is_err() {
            return Err(ConfigError::AddressInvalid);
        }
        if self.rx_fifo_threshold as usize > I2C_FIFO_SIZE {
            return Err(ConfigError::InvalidFifoThreshold);
        }
        if self.tx_fifo_threshold as usize > I2C_FIFO_SIZE {
            return Err(ConfigError::InvalidFifoThreshold);
        }
        Ok(())
    }

    /// Sets the slave address.
    pub fn with_address(self, address: I2cAddress) -> (r: Self)
        ensures
            r == (Config { address, ..self }),
    {
        Config { address, ..self }
    }

    /// Sets whether clock stretching is enabled.
    pub fn with_clock_stretch_enable(self, clock_stretch_enable: bool) -> (r: Self)
        ensures
            r == (Config { clock_stretch_enable, ..self }),
    {
        Config { clock_stretch_enable, ..self }
    }

    /// Sets whether SDA filtering is enabled.
    pub fn with_sda_filter_enable(self, sda_filter_enable: bool) -> (r: Self)
        ensures
            r == (Config { sda_filter_enable, ..self }),
    {
        Config { sda_filter_enable, ..self }
    }

    /// Sets the SDA filter threshold.
    pub fn with_sda_filter_threshold(self, sda_filter_threshold: u8) -> (r: Self)
        ensures
            r == (Config { sda_filter_threshold, ..self }),
    {
        Config { sda_filter_threshold, ..self }
    }

    /// Sets whether SCL filtering is enabled.
    pub fn with_scl_filter_enable(self, scl_filter_enable: bool) -> (r: Self)
        ensures
            r == (Config { scl_filter_enable, ..self }),
    {
        Config { scl_filter_enable, ..self }
    }

    /// Sets the SCL filter threshold.
    pub fn with_scl_filter_threshold(self, scl_filter_threshold: u8) -> (r: Self)
        ensures
            r == (Config { scl_filter_threshold, ..self }),
    {
        Config { scl_filter_threshold, ..self }
    }

    /// Sets the RX FIFO threshold.
    pub fn with_rx_fifo_threshold(self, rx_fifo_threshold: u8) -> (r: Self)
        ensures
            r == (Config { rx_fifo_threshold, ..self }),
    {
        Config { rx_fifo_threshold, ..self }
    }

    /// Sets the TX FIFO threshold.
    pub fn with_tx_fifo_threshold(self, tx_fifo_threshold: u8) -> (r: Self)
        ensures
            r == (Config { tx_fifo_threshold, ..self }),
    {
        Config { tx_fifo_threshold, ..self }
    }

    /// Sets whether register-based mode is enabled.
    pub fn with_register_based_mode(self, register_based_mode: bool) -> (r: Self)
        ensures
            r == (Config { register_based_mode, ..self }),
    {
        Config { register_based_mode, ..self }
    }

    /// Sets the safeguard timeout, in milliseconds.
    pub fn with_timeout_ms(self, timeout_ms: u32) -> (r: Self)
        ensures
            r == (Config { timeout_ms, ..self }),
    {
        Config { timeout_ms, ..self }
    }

    /// Sets the interrupt priority.
    pub fn with_interrupt_priority(self, interrupt_priority: Priority) -> (r: Self)
        ensures
            r == (Config { interrupt_priority, ..self }),
    {
        Config { interrupt_priority, ..self }
    }
}

impl Default for Config {
    fn default() -> (r: Self)
        ensures
            r == Config::default_spec(),
    {
        Config {
            address: I2cAddress::SevenBit(0x55),
            clock_stretch_enable: true,
            sda_filter_enable: true,
            sda_filter_threshold: 7,
            scl_filter_enable: true,
            scl_filter_threshold: 7,
            rx_fifo_threshold: 16,
            tx_fifo_threshold: 16,
            register_based_mode: false,
            timeout_ms: 1000,
            interrupt_priority: Priority::Priority1,
        }
    }
}

} // verus!
