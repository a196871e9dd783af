[package]
name = "container_dash"
version = "0.1.0"
edition = "2021"
publish = false

[dependencies]
tokio = { version = "*", features = ["full"] }
strip-ansi-escapes = "*"
bollard = "*"
futures = "*"
ratatui = "*"
