[package]
name = "smxdasm"
version = "0.1.0"
edition = "2021"
publish = false

[dependencies]
bitflags = "1"
byteorder = "1"
