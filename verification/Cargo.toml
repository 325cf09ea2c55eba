[package]
name = "pico_hal"
version = "0.1.0"
edition = "2021"
publish = false

[dependencies]
rp2040-pac = "0.6"
