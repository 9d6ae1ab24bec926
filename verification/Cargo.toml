[package]
name = "randomorg"
version = "0.1.0"
edition = "2021"
publish = false

[dependencies]
chrono = { version = "=0.4.45", default-features = false, features = ["std"] }
http = "=1.5.0"
log = "=0.4.34"
rand_core = { version = "=0.6.4", features = ["std"] }
reqwest = { version = "=0.13.5", features = ["blocking"] }
serde_json = "=1.0.154"
