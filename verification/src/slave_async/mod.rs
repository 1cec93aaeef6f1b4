//! Interrupt-driven I2C slave driver.
//!
//! The interrupt handler keeps the transaction state machine; reads and
//! writes are futures that copy bytes between the FIFOs and the caller's
//! buffers as the handler wakes them.

pub mod config;
pub mod driver;
pub mod error;
pub mod event;
pub mod future;
pub mod i2c;
pub mod instance;
pub mod state;

pub use crate::slave::address::I2cAddress;
pub use config::Config;
pub use error::{ConfigError, Error};
pub use event::{Event, EventSet};
pub use instance::Info;
pub use state::{State, TransactionState};
pub use i2c::SlaveAsync;
