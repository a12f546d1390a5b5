[package]
name = "actr"
version = "0.1.0"
edition = "2021"
publish = false

[dependencies]
async-trait = "=0.1.92"
base64 = "=0.22.1"
bytes = "=1.12.1"
chrono = "=0.4.45"
ed25519-dalek = "=2.2.0"
futures-util = "=0.3.34"
hex = "=0.4.3"
opus = "=0.4.0"
parking_lot = "=0.12.5"
prost-types = "=0.14.4"
rand = "=0.10.3"
serde = { version = "=1.0.229", features = ["derive"] }
thiserror = "=2.0.21"
tokio = { version = "=1.54.1", features = ["full"] }
tokio-tungstenite = "=0.30.0"
tokio-util = "=0.7.20"
toml = "=1.1.8"
tracing = "=0.1.44"
uniffi = "=0.32.2"
url = "=2.5.8"
webrtc = "0.14"
