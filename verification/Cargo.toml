[package]
name = "logcore"
version = "0.1.0"
edition = "2021"
publish = false

[dependencies]
anyhow = "*"
flexi_logger = "*"
log = "*"
once_cell = "*"
parking_lot = "*"
