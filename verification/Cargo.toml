[package]
name = "rcli"
version = "0.1.0"
edition = "2021"
publish = false

[dependencies]
anyhow = "*"
axum = "*"
base64 = "*"
blake3 = "*"
chrono = "*"
chrono-tz = "*"
clap = { version = "*", features = ["derive"] }
csv = "*"
ed25519-dalek = "*"
rand = "*"
serde = { version = "*", features = ["derive"] }
serde_json = "*"
serde_yaml = "*"
tokio = { version = "*", features = ["rt-multi-thread", "macros", "net", "fs"] }
toml = "*"
tower-http = { version = "*", features = ["fs"] }
tracing = "*"
zxcvbn = "*"
