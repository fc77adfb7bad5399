[package]
name = "graylog"
version = "0.1.0"
edition = "2021"
publish = false

[dependencies]
byteorder = "=1.5.0"
chrono = { version = "=0.4.45", default-features = false, features = ["clock"] }
flate2 = "=1.1.10"
log = { version = "=0.4.34", features = ["std"] }
serde_json = { version = "=1.0.154", features = ["preserve_order"] }
