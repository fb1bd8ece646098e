[package]
name = "rlex"
version = "0.1.0"
edition = "2021"
publish = false

[dependencies]
regex = "=1.13.1"
urlencoding = "=2.1.3"
anyhow = "=1.0.104"
clap = { version = "=4.6.7", features = ["derive"] }
serde = { version = "=1.0.229", features = ["derive"] }
serde_json = "=1.0.154"
toml = "=0.8.23"
dirs = "=6.0.0"
walkdir = "=2.5.0"
flate2 = "=1.1.10"
oxigraph = { version = "=0.5.13", default-features = false }
reqwest = { version = "=0.12.28", default-features = false, features = ["blocking", "json"] }
axum = "=0.8.9"
tokio = { version = "=1.54.1", features = ["rt-multi-thread", "net", "macros"] }
tower-http = { version = "=0.6.11", features = ["cors"] }
