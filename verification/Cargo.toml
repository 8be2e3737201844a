[package]
name = "quackgis_server"
version = "0.1.0"
edition = "2021"
publish = false

[dependencies]
memchr = "2"
rust_decimal = { version = "1", default-features = false, features = ["std"] }
chrono = { version = "0.4", default-features = false, features = ["alloc", "std"] }
arrow-array = "*"
arrow-schema = "*"
tokio = { version = "1", features = ["rt-multi-thread", "net", "io-util", "macros", "time", "sync", "signal"] }
log = "0.4"
env_logger = "*"
