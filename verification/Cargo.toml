[package]
name = "uefi_hello"
version = "0.1.0"
edition = "2021"
publish = false

[dependencies]
uefi = "0.30"
