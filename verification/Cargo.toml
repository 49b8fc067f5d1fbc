[package]
name = "countersyncd"
version = "0.1.0"
edition = "2021"
publish = false

[dependencies]
yaml-rust = "0.4"
neli = "*"
tokio = { version = "1", features = ["macros", "rt-multi-thread", "sync", "time"] }
log = "0.4"
env_logger = "*"
clap = { version = "4", features = ["derive"] }
chrono = "0.4"
opentelemetry = "*"
opentelemetry-proto = { version = "*", features = ["gen-tonic", "metrics"] }
tonic = "*"
