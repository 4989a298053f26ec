[package]
name = "session_attach"
version = "0.1.0"
edition = "2021"
publish = false

[dependencies]
serde_json = "=1.0.151"
urlencoding = "=2.1.3"
tokio = { version = "=1.53.2", features = ["rt-multi-thread", "macros", "time", "sync"] }
tokio-tungstenite = "=0.30.0"
futures-util = "=0.3.34"
warp = { version = "=0.4.3", features = ["server"] }
reqwest = { version = "=0.13.5", default-features = false }
