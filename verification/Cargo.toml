[package]
name = "mcxa-lpuart"
version = "0.1.0"
edition = "2021"
publish = false

[dependencies]
cortex-m = "=0.7.10"
embassy-hal-internal = "=0.5.0"
embassy-time = "=0.5.1"
embedded-hal-nb = "=1.0.0"
embedded-io = "=0.7.1"
maitake-sync = "=0.3.0"
