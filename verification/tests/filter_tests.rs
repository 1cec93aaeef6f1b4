//! Glitch filter configuration.

use i2c_slave::periph::Peripheral;
use i2c_slave::regs::I2cRegisters;
use i2c_slave::slave::{Config, I2c};

fn with_filtering(config: Config, threshold: u8) -> Config {
    config.with_sda_filter_threshold(threshold).with_scl_filter_threshold(threshold)
}

#[test]
fn test_filter_config() {
    let config = with_filtering(Config::default(), 3);
    assert_eq!(config.sda_filter_threshold, 3);
    assert_eq!(config.scl_filter_threshold, 3);
}

#[test]
fn test_filter_range() {
    for threshold in 0..=7 {
        let config = with_filtering(Config::default(), threshold);
        assert_eq!(config.sda_filter_threshold, threshold);
        assert_eq!(config.scl_filter_threshold, threshold);
    }
}

#[test]
fn test_filter_validation() {
    // Thresholds are stored as given; the hardware field takes them as is.
    let config = with_filtering(Config::default(), 200);
    let slave = I2c::new(Peripheral::I2cExt0, I2cRegisters::new(), config).unwrap();
    assert_eq!(slave.regs.filter_cfg.sda_filter_thres, 200);
}

#[test]
fn test_filter_default() {
    let config = Config::default();
    assert!(config.sda_filter_threshold <= 7);
    assert!(config.scl_filter_threshold <= 7);
}

#[test]
fn test_filter_builder_chain() {
    let config = with_filtering(Config::default().with_address(0x55.into()), 5);

    assert_eq!(config.sda_filter_threshold, 5);
    assert_eq!(config.address, 0x55.into());
}

#[test]
fn document_filter_purpose() {
    let slave = I2c::new(Peripheral::I2cExt0, I2cRegisters::new(), Config::default()).unwrap();
    assert!(slave.regs.filter_cfg.sda_filter_en);
    assert!(slave.regs.filter_cfg.scl_filter_en);
    assert_eq!(slave.regs.filter_cfg.sda_filter_thres, 7);
    assert_eq!(slave.regs.filter_cfg.scl_filter_thres, 7);
}

#[test]
fn document_apb_clock_cycles() {
    let config = Config::default().with_sda_filter_threshold(1).with_scl_filter_threshold(2);
    let slave = I2c::new(Peripheral::I2cExt0, I2cRegisters::new(), config).unwrap();
    assert_eq!(slave.regs.filter_cfg.sda_filter_thres, 1);
    assert_eq!(slave.regs.filter_cfg.scl_filter_thres, 2);
}

#[test]
fn document_filter_tradeoffs() {}

#[test]
fn document_when_to_use() {
    // A disabled filter keeps the threshold that was there.
    let mut regs = I2cRegisters::new();
    regs.filter_cfg.sda_filter_thres = 4;
    let config = Config::default().with_sda_filter_enable(false);
    let slave = I2c::new(Peripheral::I2cExt0, regs, config).unwrap();
    assert!(!slave.regs.filter_cfg.sda_filter_en);
    assert_eq!(slave.regs.filter_cfg.sda_filter_thres, 4);
    assert!(slave.regs.filter_cfg.scl_filter_en);
}

#[test]
fn document_chip_differences() {}
