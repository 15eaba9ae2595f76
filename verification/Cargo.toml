[package]
name = "av1_super_daemon"
version = "0.1.0"
edition = "2021"
publish = false

[dependencies]
num_cpus = "1"
uuid = { version = "1", features = ["v4"] }
walkdir = "2"
serde = { version = "1", features = ["derive"] }
serde_json = "1"
toml = "0.8"
clap = { version = "4", features = ["derive"] }
tokio = { version = "1", features = ["full"] }
axum = "0.7"
sysinfo = "0.32"
thiserror = "1"
