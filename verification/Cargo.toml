[package]
name = "log_capture"
version = "0.1.0"
edition = "2021"
publish = false

[dependencies]
chrono = { version = "0.4", default-features = false, features = ["clock", "std"] }
lazy_static = "1"
log = "0.4"
unicode-width = "0.1"
