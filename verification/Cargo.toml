[package]
name = "homeslashmusic"
version = "0.1.0"
edition = "2021"
publish = false

[dependencies]
async-oneshot = "0.5"
async-signal = "0.2"
clap = { version = "4", features = ["derive"] }
dashmap = "6"
futures-concurrency = "7"
git-version = "0.3"
mpris-server = "*"
rand = "0.9"
rodio = "0.21"
rustix = { version = "1", features = ["process"] }
serde = { version = "1", features = ["derive"] }
serde_json = "1"
smol = "2"
symphonia = "0.5"
thiserror = "2"
urlencoding = "2"
