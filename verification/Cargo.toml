[package]
name = "sensor_dispatch"
version = "0.1.0"
edition = "2021"
publish = false

[dependencies]
yaml-rust = "=0.4.5"
dotenv = "=0.15.0"
rocket = { version = "0.5", default-features = false }
