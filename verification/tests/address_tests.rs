//! Slave address representation and validation.

use i2c_slave::slave::{Config, I2cAddress};

#[test]
fn test_address_format() {
    let addr = I2cAddress::SevenBit(0x55);

    match addr {
        I2cAddress::SevenBit(a) => assert_eq!(a, 0x55),
        _ => panic!("expected a 7-bit address"),
    }
}

#[test]
fn test_address_equality() {
    let addr1 = I2cAddress::SevenBit(0x55);
    let addr2 = I2cAddress::SevenBit(0x55);
    let addr3 = I2cAddress::SevenBit(0x56);

    assert_eq!(addr1, addr2);
    assert_ne!(addr1, addr3);
}

#[test]
fn test_config_address_comparison() {
    let config1 = Config::default().with_address(0x55.into());
    let config2 = Config::default().with_address(0x55.into());
    let config3 = Config::default().with_address(0x56.into());

    assert_eq!(config1.address, config2.address);
    assert_ne!(config1.address, config3.address);
}

#[test]
fn test_all_valid_addresses() {
    for addr in 0u8..=0x7F {
        let address = I2cAddress::SevenBit(addr);
        assert!(address.validate().is_ok());
    }
}

#[test]
fn test_all_invalid_addresses() {
    for addr in 0x80u8..=0xFF {
        let address = I2cAddress::SevenBit(addr);
        assert!(address.validate().is_err());
    }
}
