[package]
name = "crossterm"
version = "0.1.0"
edition = "2021"
publish = false

[dependencies]
moto-rt = "*"
parking_lot = "*"
