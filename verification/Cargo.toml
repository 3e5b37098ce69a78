[package]
name = "phytium_i2c"
version = "0.1.0"
edition = "2021"
publish = false

[dependencies]
tock-registers = "=0.8.1"
aarch64-cpu = "=9.4.0"
axconfig = "=0.3.0-preview.3"
