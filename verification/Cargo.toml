[package]
name = "openclaw_linux"
version = "0.1.0"
edition = "2021"
publish = false

[dependencies]
base64 = "=0.22.1"
dirs = "=7.0.0"
ed25519-dalek = { version = "=2.2.0", features = ["rand_core"] }
hex = "=0.4.3"
rand = "=0.8.8"
serde = { version = "=1.0.229", features = ["derive"] }
serde_json = "=1.0.154"
sha2 = "=0.10.9"
url = "=2.5.8"
uuid = { version = "=1.29.0", features = ["v4"] }
thiserror = "=2.0.21"
tokio = { version = "=1.54.1", features = ["process", "time", "net", "io-util", "macros", "rt-multi-thread", "sync", "fs"] }
tracing = "=0.1.44"
tracing-subscriber = { version = "=0.3.23", features = ["env-filter"] }
futures-util = "=0.3.34"
tokio-tungstenite = "=0.30.0"
mdns-sd = "=0.21.7"
zbus = "5"
zbus_macros = "5"
notify-rust = { version = "4", default-features = false, features = ["z"] }
