[package]
name = "hpos_hc_connect"
version = "0.1.0"
edition = "2021"
publish = false

[dependencies]
anyhow = "=1.0.104"
base64 = "=0.13.1"
chrono = { version = "=0.4.45", default-features = false, features = ["clock", "std"] }
ed25519-dalek = "=2.2.0"
getrandom = "=0.2.17"
holo_hash = { version = "=0.2.2", default-features = false, features = ["encoding", "serialization"] }
holofuel_types = "*"
nix = { version = "=0.29.0", default-features = false, features = ["signal"] }
rmp = "=0.8.10"
serde = { version = "=1.0.229", features = ["derive"] }
serde_json = "=1.0.154"
serde_yaml = "=0.9.34"
snafu = "=0.8.9"
tempfile = "=3.27.0"
thiserror = "=1.0.69"
url = "=2.5.8"
