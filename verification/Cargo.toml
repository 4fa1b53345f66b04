[package]
name = "timer_hal"
version = "0.1.0"
edition = "2021"
publish = false

[dependencies]
nrf52840-hal = "*"
