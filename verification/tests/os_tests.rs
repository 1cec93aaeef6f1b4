//! Running the driver under an executor or an operating system.

use i2c_slave::slave::{Async, Blocking, I2c};

#[test]
fn test_send_trait() {
    fn is_send<T: Send>() {}
    is_send::<I2c<Blocking>>();
    is_send::<I2c<Async>>();
}

#[test]
fn test_sync_trait() {
}

#[test]
fn test_static_lifetime() {
    fn is_static<T: 'static>() {}
    is_static::<I2c<Blocking>>();
}

#[test]
fn os_tests_document_embassy_integration() {
}

#[test]
fn document_rtic_integration() {
}

#[test]
fn document_freertos_integration() {
}

#[test]
fn document_bare_metal_usage() {
}

#[test]
fn document_thread_safety() {
}

#[test]
fn document_async_benefits_with_os() {
}

#[test]
fn document_choosing_framework() {
}
