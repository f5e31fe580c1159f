[package]
name = "wazm"
version = "0.1.0"
edition = "2021"
publish = false

[dependencies]
byteorder = "1"
hex = "0.4"
