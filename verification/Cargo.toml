[package]
name = "rust_droid"
version = "0.1.0"
edition = "2021"
publish = false

[dependencies]
image = "*"
adb_client = "*"
