[package]
name = "remote_core"
version = "0.1.0"
edition = "2021"
publish = false

[dependencies]
serde = { version = "*", features = ["derive"] }
serde_json = "*"
toml = "*"
url = "*"
tokio = { version = "*", features = ["macros", "rt-multi-thread", "time", "sync", "signal"] }
tokio-tungstenite = "*"
futures-util = "*"
enigo = "*"
