[package]
name = "tick_core"
version = "0.1.0"
edition = "2021"
publish = false

[dependencies]
lock_api = "*"
log = "=0.4.34"
parking_lot = "=0.12.5"
