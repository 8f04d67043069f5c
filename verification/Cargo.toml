[package]
name = "texas"
version = "0.1.0"
edition = "2021"
publish = false

[dependencies]
serde = { version = "=1.0.229", features = ["derive"] }
serde_json = "=1.0.154"
toml = "=0.8.23"
notify = "=8.2.1"
crossbeam-channel = "=0.5.17"
parking_lot = "=0.12.5"
once_cell = "=1.21.4"
lapce-xi-rope = "=0.4.0"
thiserror = "=2.0.21"
anyhow = "=1.0.104"
tracing = "=0.1.44"
tempfile = "3"
tar = "0.4"
zstd = "0.13"
zip = { version = "*", default-features = false, features = ["deflate"] }
chrono = { version = "0.4", default-features = false, features = ["clock"] }
open = "5"
