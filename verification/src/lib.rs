//! Verified core of an I2C slave driver for ESP32-C6 class peripherals.
//!
//! The crate holds the decision logic of two drivers: the polling driver in
//! [`slave`] and the interrupt-driven driver in [`slave_async`]. Both work on
//! [`regs::I2cRegisters`], a plain-value model of the peripheral's register
//! block, so that every register update the drivers make is stated and proved.
//! [`helpers`] holds the software master and data-pattern utilities used to
//! exercise the drivers, and [`responder`] the command protocols of the test
//! firmware that runs on them.

pub mod helpers;
pub mod periph;
pub mod regs;
pub mod responder;
pub mod slave;
pub mod slave_async;
pub mod task;
pub mod text;
