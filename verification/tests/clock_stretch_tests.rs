//! Clock stretching configuration and its effect on the registers.

use i2c_slave::periph::Peripheral;
use i2c_slave::regs::I2cRegisters;
use i2c_slave::slave::driver::STRETCH_PROTECT_MAX;
use i2c_slave::slave::{Config, I2c};

#[test]
fn test_clock_stretch_config() {
    let config_enabled = Config::default().with_clock_stretch_enable(true);
    assert_eq!(config_enabled.clock_stretch_enable, true);

    let config_disabled = Config::default().with_clock_stretch_enable(false);
    assert_eq!(config_disabled.clock_stretch_enable, false);
}

#[test]
fn test_clock_stretch_default() {
    let config = Config::default();
    assert_eq!(config.clock_stretch_enable, true);
}

#[test]
fn test_clock_stretch_builder_chain() {
    let config = Config::default()
        .with_address(0x55.into())
        .with_clock_stretch_enable(false);

    assert_eq!(config.clock_stretch_enable, false);
    assert_eq!(config.address, 0x55.into());
}

#[test]
fn document_clock_stretching_purpose() {
    // With stretching on, the slave holds SCL between bytes: the hardware is
    // set up for it with the largest protection count.
    let slave = I2c::new(Peripheral::I2cExt0, I2cRegisters::new(), Config::default()).unwrap();
    assert!(slave.regs.scl_stretch_conf.slave_scl_stretch_en);
    assert_eq!(slave.regs.scl_stretch_conf.stretch_protect_num, STRETCH_PROTECT_MAX);
}

#[test]
fn document_when_to_enable() {
    // Disabling stretching leaves SCL free.
    let config = Config::default().with_clock_stretch_enable(false);
    let slave = I2c::new(Peripheral::I2cExt0, I2cRegisters::new(), config).unwrap();
    assert!(!slave.regs.scl_stretch_conf.slave_scl_stretch_en);

    // Preparing a transmit without stretching drops the protection count.
    let mut slave = slave;
    slave.write(&[1]).unwrap();
    assert_eq!(slave.regs.scl_stretch_conf.stretch_protect_num, 0);
}

#[test]
fn document_stretch_limits() {
    assert_eq!(STRETCH_PROTECT_MAX, 1023);
}

#[test]
fn document_hardware_support() {
    // Reconfiguring switches stretching off and on again.
    let mut slave = I2c::new(Peripheral::I2cExt1, I2cRegisters::new(), Config::default()).unwrap();
    slave.apply_config(&Config::default().with_clock_stretch_enable(false)).unwrap();
    assert!(!slave.regs.scl_stretch_conf.slave_scl_stretch_en);
    slave.apply_config(&Config::default()).unwrap();
    assert!(slave.regs.scl_stretch_conf.slave_scl_stretch_en);
}

#[test]
fn successful_write_releases_the_stretch() {
    let mut slave = I2c::new(Peripheral::I2cExt0, I2cRegisters::new(), Config::default()).unwrap();
    slave.regs.scl_stretch_conf.slave_scl_stretch_clr = false;
    slave.write(&[1]).unwrap();
    assert!(slave.regs.scl_stretch_conf.slave_scl_stretch_clr);
}
