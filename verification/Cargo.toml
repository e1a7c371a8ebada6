[package]
name = "prom_line"
version = "0.1.0"
edition = "2021"
publish = false

[dependencies]
regex = "1"
lazy_static = "1"
chrono = { version = "0.4", default-features = false }
