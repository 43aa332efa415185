[package]
name = "telemetry_session"
version = "0.1.0"
edition = "2021"
publish = false

[dependencies]
embassy-futures = "*"
esp-idf-svc = "*"
esp-idf-sys = "*"
log = "*"
