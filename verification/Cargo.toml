[package]
name = "kobo-abi"
version = "0.1.0"
edition = "2021"
publish = false

[dependencies]
libc = "0.2"

[lints.rust]
unexpected_cfgs = { level = "warn", check-cfg = ['cfg(feature, values("device-write"))'] }
