[package]
name = "kroki_rs"
version = "0.1.0"
edition = "2021"
publish = false

[dependencies]
anyhow = "1"
async-trait = "0.1"
axum = "0.8"
base64 = "0.22"
bcrypt = "*"
clap = { version = "4", features = ["derive"] }
dashmap = "6"
dirs = "*"
flate2 = "1"
hex = "0.4"
image = { version = "0.25", default-features = false, features = ["png", "webp"] }
metrics = "0.24"
metrics-exporter-prometheus = { version = "*", default-features = false }
num_cpus = "1"
reqwest = { version = "0.12", default-features = false, features = ["rustls-tls"] }
resvg = "*"
serde = { version = "1", features = ["derive"] }
serde_json = "1"
sha2 = "0.10"
tempfile = "3"
thiserror = "*"
tokio = { version = "1", features = ["full"] }
toml = "*"
tracing = "0.1"
tracing-subscriber = { version = "0.3", features = ["env-filter"] }
walkdir = "2"
which = "*"
