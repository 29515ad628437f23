[package]
name = "usb_host"
version = "0.1.0"
edition = "2021"
publish = false

[dependencies]
embassy-sync = "*"
embassy-time = "*"
embassy-usb-driver = "*"
