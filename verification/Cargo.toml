[package]
name = "govee_collector"
version = "0.1.0"
edition = "2021"
publish = false

[dependencies]
btleplug = "*"
dirs = "*"
env_logger = "*"
futures = "*"
log = "*"
serde = { version = "*", features = ["derive"] }
structopt = "*"
tokio = { version = "*", features = ["macros", "rt-multi-thread", "sync", "time"] }
toml = "*"
