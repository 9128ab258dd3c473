[package]
name = "splitkb"
version = "0.1.0"
edition = "2021"
publish = false

[dependencies]
keyberon = "=0.1.1"
cortex-m = "=0.7.10"
cortex-m-rtic = "=1.1.4"
embedded-hal = "=0.2.7"
fugit = "=0.3.9"
panic-halt = "=0.2.0"
rp2040-boot2 = "=0.2.1"
rp2040-hal = { version = "=0.7.0", features = ["rt"] }
usb-device = "=0.2.9"
