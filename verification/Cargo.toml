[package]
name = "dusty"
version = "0.1.0"
edition = "2021"
publish = false

[dependencies]
log = "*"
env_logger = "*"
chrono = "*"
tokio = { version = "*", features = ["rt-multi-thread", "macros", "signal", "time"] }
zbus = { version = "*", default-features = false, features = ["tokio"] }
