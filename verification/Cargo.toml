[package]
name = "tomu_usb_simple_client"
version = "0.1.0"
edition = "2021"
publish = false

[dependencies]
nusb = "*"
thiserror = "2"
