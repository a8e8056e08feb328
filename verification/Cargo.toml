[package]
name = "hyperzenith"
version = "0.1.0"
edition = "2021"
publish = false

[dependencies]
chrono = "*"
dirs = "*"
sysinfo = "*"
ssh2 = "*"
serde = { version = "*", features = ["derive"] }
serde_json = "*"
walkdir = "*"
