//! The software master used to exercise a slave.

use i2c_slave::helpers::mock_master::MockMaster;

#[test]
fn test_mock_master_creation() {
    let master = MockMaster::new(0x55);
    assert_eq!(master.slave_address(), 0x55);
}

#[test]
fn test_mock_master_write() {
    let mut master = MockMaster::new(0x55);
    assert!(master.write(&[0xAA, 0xBB]).is_ok());
    assert_eq!(master.get_tx_buffer(), &[0xAA, 0xBB]);
}

#[test]
fn test_mock_master_read() {
    let mut master = MockMaster::new(0x55);
    master.set_rx_buffer(&[0xCC, 0xDD]);

    let mut buffer = [0u8; 2];
    let len = master.read(&mut buffer).unwrap();

    assert_eq!(len, 2);
    assert_eq!(buffer, [0xCC, 0xDD]);
}

#[test]
fn test_mock_master_clear() {
    let mut master = MockMaster::new(0x55);
    master.write(&[0xAA]).unwrap();
    master.set_rx_buffer(&[0xBB]);

    master.clear();

    assert_eq!(master.get_tx_buffer().len(), 0);
    let mut buffer = [0u8; 1];
    assert_eq!(master.read(&mut buffer), Ok(0));
}

#[test]
fn mock_master_refuses_empty_transfers() {
    let mut master = MockMaster::new(0x10);
    assert_eq!(master.write(&[]), Err("Empty write"));
    let mut empty: [u8; 0] = [];
    assert_eq!(master.read(&mut empty), Err("Empty buffer"));
    assert_eq!(master.write_read(&[], &mut [0u8; 1]), Err("Empty write"));
}

#[test]
fn mock_master_response_is_read_back_in_pieces() {
    let mut master = MockMaster::new(0x10);
    master.set_rx_buffer(&[1, 2, 3, 4, 5]);

    let mut first = [0u8; 2];
    assert_eq!(master.read(&mut first), Ok(2));
    assert_eq!(first, [1, 2]);

    let mut rest = [9u8; 4];
    assert_eq!(master.read(&mut rest), Ok(3));
    assert_eq!(rest, [3, 4, 5, 9]);
}

#[test]
fn mock_master_write_read() {
    let mut master = MockMaster::new(0x10);
    master.set_rx_buffer(&[0x42]);
    let mut buffer = [0u8; 1];
    assert_eq!(master.write_read(&[0x01], &mut buffer), Ok(1));
    assert_eq!(buffer, [0x42]);
    assert_eq!(master.get_tx_buffer(), &[0x01]);

    assert_eq!(master.write_read(&[0x02], &mut []), Err("Empty buffer"));
    assert_eq!(master.get_tx_buffer(), &[0x01, 0x02]);
}

#[test]
fn transmit_log_concatenates_writes() {
    let mut master = MockMaster::new(0x10);
    master.write(&[1, 2]).unwrap();
    master.set_rx_buffer(&[9]);
    let mut b = [0u8; 1];
    master.read(&mut b).unwrap();
    assert!(master.write(&[]).is_err());
    master.write(&[3]).unwrap();
    assert_eq!(master.get_tx_buffer(), &[1, 2, 3]);
}
