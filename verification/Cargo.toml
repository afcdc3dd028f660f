[package]
name = "neko_server"
version = "0.1.0"
edition = "2021"
publish = false

[dependencies]
image = "*"
chrono = "0.4"
log = "*"
env_logger = "*"
warp = "0.3"
tokio = { version = "1", features = ["rt-multi-thread", "macros", "time", "sync"] }
redis = { version = "*", features = ["tokio-comp", "connection-manager"] }
clap = { version = "4", features = ["derive"] }
signal-hook = "*"
