[package]
name = "tcp_server"
version = "0.1.0"
edition = "2021"
publish = false

[dependencies]
dashmap = "6"
bincode = "1"
serde = { version = "1", features = ["derive"] }
tokio = { version = "1", features = ["net", "rt-multi-thread", "sync", "io-util", "macros", "time"] }
nix = { version = "0.27", features = ["socket", "net", "resource", "time"] }
log = "0.4"
env_logger = "0.11"
dotenv = "0.15"
thiserror = "1"
sys-info = "0.9"
