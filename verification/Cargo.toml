[package]
name = "splitstream"
version = "0.1.0"
edition = "2021"
publish = false

[dependencies]
aec-rs = "=1.0.0"
cidre = "=0.29.0"
colored = "=3.1.1"
config = "=0.15.27"
coreaudio-sys = "=0.2.18"
cpal = "=0.17.3"
dotenvy = "=0.15.7"
fixed-resample = "=0.9.2"
futures-util = "=0.3.34"
http = "=1.5.0"
log = "=0.4.35"
opus = "=0.4.0"
parakeet-rs = "=0.3.8"
reqwest = { version = "=0.13.5", features = ["blocking"] }
ringbuf = "=0.4.8"
serde = { version = "=1.0.229", features = ["derive"] }
serde_json = "=1.0.154"
thiserror = "=2.0.21"
tokio = { version = "=1.54.1", features = ["full"] }
tokio-tungstenite = { version = "=0.30.0", features = ["native-tls"] }
tokio-util = "=0.7.20"
tungstenite = "=0.30.0"
whisper-rs = "=0.16.0"
