[package]
name = "libsw"
version = "0.1.0"
edition = "2021"
publish = false

[dependencies]
libsw-core = { version = "=0.3.2", features = ["std", "quanta"] }
quanta = "=0.12.6"
