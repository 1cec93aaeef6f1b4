[package]
name = "i2c_slave"
version = "0.1.0"
edition = "2021"
publish = false

[dependencies]
critical-section = { version = "1", features = ["std"] }
embassy-embedded-hal = { version = "*", default-features = false }
