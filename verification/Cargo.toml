[package]
name = "mprocs"
version = "0.1.0"
edition = "2021"
publish = false

[dependencies]
anyhow = "1"
clap = { version = "4", features = ["derive"] }
crossterm = { version = "0.25", features = ["event-stream"] }
flexi_logger = "0.25"
futures = "0.3"
log = "0.4"
serde_yaml = "0.9"
tokio = { version = "1", features = ["full"] }
triggered = "0.1"
tui = { version = "0.19", features = ["crossterm"], default-features = false }
