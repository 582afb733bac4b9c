[package]
name = "openvx_core"
version = "0.1.0"
edition = "2021"
publish = false

[dependencies]
log = "0.4"
once_cell = "1"
parking_lot = "0.12"
