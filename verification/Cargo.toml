[package]
name = "cnx"
version = "0.2.0"
edition = "2021"
publish = false

[dependencies]
cairo-rs = "0.5"
chrono = "0.4"
env_logger = "0.6"
failure = "0.1"
futures = "0.1"
log = "0.4"
pango = "0.5"
pangocairo = "0.6"
tokio-core = "0.1"
tokio-timer = "0.1"
