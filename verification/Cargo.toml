[package]
name = "oobe"
version = "0.1.0"
edition = "2021"
publish = false

[dependencies]
anyhow = "*"
fs4 = "*"
serde = { version = "*", features = ["derive"] }
serde_json = "*"
sysinfo = "*"
