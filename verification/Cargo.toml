[package]
name = "countryman"
version = "0.1.0"
edition = "2021"
publish = false

[dependencies]
arrayvec = { version = "=0.7.8", default-features = false }
display-interface-spi = "=0.4.1"
embassy-futures = "=0.1.2"
embassy-sync = "=0.5.0"
embassy-time = "=0.3.2"
embedded-graphics = "=0.8.2"
embedded-graphics-core = "=0.4.1"
embedded-hal = "=1.0.0"
embedded-hal-async = "=1.0.0"
embedded-io-async = "=0.6.1"
fixed = "=1.29.0"
log = "=0.4.34"
mipidsi = "=0.7.1"
static_cell = "=2.1.1"
ufmt = "=0.2.0"
