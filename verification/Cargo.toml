[package]
name = "honeywell-mpr"
version = "0.1.0"
edition = "2021"
publish = false

[dependencies]
bitfields = "*"
embedded-hal = "1.0"
embedded-hal-async = "1.0"
