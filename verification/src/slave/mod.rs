//! Polling I2C slave driver.

pub mod address;
pub mod error;

pub use address::I2cAddress;
pub use error::{ConfigError, Error};
pub mod config;
pub mod event;

pub use config::Config;
pub use event::{Event, EventSet};
pub mod driver;
pub mod info;

pub use info::Info;
pub mod future;
pub mod i2c;

pub use i2c::{Async, Blocking, I2c};
