//! The command protocols of the test firmware.

use i2c_slave::responder::{
    basic_respond, deferred_respond, retry_step, should_report, MasterTest, RetryStep,
    CMD_ECHO, CMD_MAX_FIFO, CMD_MULTI_BYTE, CMD_SIMPLE, CMD_STATUS, CMD_WRITE_READ, RETRY_DELAY_MS,
};
use i2c_slave::responder::{blocking_respond, CMD_STATUS_REPORT};
use i2c_slave::slave::Error;

#[test]
fn deferred_answers() {
    let echo = deferred_respond(0, &[CMD_ECHO, 0xAA, 0xBB]);
    assert_eq!(echo.data, vec![CMD_ECHO, 0xAA, 0xBB]);
    assert_eq!((echo.test_nbr, echo.name), (1, "Echo"));

    assert_eq!(deferred_respond(0, &[CMD_SIMPLE]).data, vec![0x42]);
    assert_eq!(deferred_respond(0, &[CMD_WRITE_READ]).data, vec![0x43]);
    assert_eq!(deferred_respond(0, &[CMD_MULTI_BYTE]).data, vec![0x44, 0x45, 0x46, 0x47]);
    let status = deferred_respond(0, &[CMD_STATUS]);
    assert_eq!((status.data, status.test_nbr, status.name), (vec![0xFF], 5, "Status"));

    let unknown = deferred_respond(4, &[0x77, 1]);
    assert_eq!((unknown.data, unknown.test_nbr, unknown.name), (vec![0x77, 1], 4, "Unknown"));
}

#[test]
fn timeouts_are_not_reported() {
    assert!(!should_report(Error::Timeout));
    assert!(should_report(Error::ArbitrationLost));
}

#[test]
fn basic_answers() {
    let mut buffer = [0u8; 32];
    buffer[0] = CMD_ECHO;
    buffer[1] = 9;
    assert_eq!(basic_respond(&buffer, 2), Some(vec![CMD_ECHO, 9]));
    buffer[0] = CMD_MULTI_BYTE;
    assert_eq!(basic_respond(&buffer, 1), Some((0..16).collect::<Vec<u8>>()));
    buffer[0] = CMD_MAX_FIFO;
    assert_eq!(basic_respond(&buffer, 1), Some((0..31).collect::<Vec<u8>>()));
    buffer[0] = 0x55;
    assert_eq!(basic_respond(&buffer, 1), None);
}

#[test]
fn master_checks_pass_against_the_basic_slave() {
    for test in [
        MasterTest::SimpleWrite,
        MasterTest::SimpleRead,
        MasterTest::WriteReadSingle,
        MasterTest::WriteReadMulti,
        MasterTest::WriteReadMaxFifo,
        MasterTest::BigWriteReadSingle,
    ] {
        let request = test.request();
        let answer = basic_respond(&request, request.len()).unwrap();
        assert!(test.passes(&answer), "{:?}", test);
    }
}

#[test]
fn master_checks_reject_wrong_answers() {
    assert!(!MasterTest::SimpleRead.passes(&[0x43]));
    assert!(!MasterTest::WriteReadMulti.passes(&[0u8; 15]));
    assert_eq!(MasterTest::BigWriteReadSingle.request()[0], CMD_WRITE_READ);
    assert_eq!(MasterTest::BigWriteReadSingle.request()[30], 30);
    assert_eq!(MasterTest::SimpleWrite.request(), vec![CMD_ECHO, 0xAA, 0xBB, 0xCC]);
}

#[test]
fn retries_stop_after_three_attempts() {
    assert_eq!(retry_step::<u8>(1, Ok(())), RetryStep::Finish(Ok(())));
    assert_eq!(retry_step(1, Err(7u8)), RetryStep::Retry { attempt: 2, delay_ms: RETRY_DELAY_MS });
    assert_eq!(retry_step(2, Err(7u8)), RetryStep::Retry { attempt: 3, delay_ms: 50 });
    assert_eq!(retry_step(3, Err(7u8)), RetryStep::Finish(Err(7)));
}

#[test]
fn blocking_answers() {
    assert_eq!(blocking_respond(&[CMD_STATUS_REPORT]), vec![0x00, 0x12, 0x34, 0x56]);
    assert_eq!(blocking_respond(&[CMD_ECHO, 7]), vec![CMD_ECHO, 7]);
    assert_eq!(blocking_respond(&[CMD_MULTI_BYTE]), (0..16).collect::<Vec<u8>>());
    assert_eq!(blocking_respond(&[CMD_MAX_FIFO]), (0..31).collect::<Vec<u8>>());
    assert_eq!(blocking_respond(&[0x99, 1]), vec![0x99, 1]);
}

#[test]
fn async_master_checks_pass_against_the_deferred_slave() {
    for test in MasterTest::async_suite() {
        let answer = deferred_respond(0, &test.request()).data;
        assert!(test.passes(&answer), "{:?}", test);
    }
    assert!(!MasterTest::MultiByteRead.is_write_read());
    assert!(MasterTest::WriteReadMulti.is_write_read());
    assert_eq!(MasterTest::blocking_suite().len(), 6);
}

#[test]
fn command_work_times() {
    assert_eq!(i2c_slave::responder::work_ms(CMD_ECHO), 100);
    assert_eq!(i2c_slave::responder::work_ms(CMD_WRITE_READ), 200);
    assert_eq!(i2c_slave::responder::work_ms(CMD_MULTI_BYTE), 150);
    assert_eq!(i2c_slave::responder::work_ms(0x77), 50);
}
