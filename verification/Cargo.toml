[package]
name = "alpheratz"
version = "0.1.0"
edition = "2021"
publish = false

[dependencies]
log = "*"
serde = { version = "*", features = ["derive"] }
toml = "*"
uefi = { version = "*", features = ["alloc"] }
uefi-raw = "*"
