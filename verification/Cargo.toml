[package]
name = "bototui"
version = "0.1.0"
edition = "2021"
publish = false

[dependencies]
chrono = "0.4"
aws-config = "1"
aws-sdk-batch = "1"
tokio = { version = "1", features = ["full"] }
ratatui = "0.29"
crossterm = "0.28"
tui-logger = "0.14"
clap = { version = "4", features = ["derive"] }
color-eyre = "0.6"
log = "0.4"
serde = { version = "1", features = ["derive"] }
strum = { version = "0.26", features = ["derive"] }
