[package]
name = "attacca"
version = "0.1.0"
edition = "2021"
publish = false

[dependencies]
dirs-next = "2"
anyhow = "1"
serde_json = "1"
tokio = { version = "1", features = ["rt-multi-thread", "macros", "sync", "time", "signal"] }
tracing = "0.1"
tracing-subscriber = { version = "0.3", features = ["env-filter"] }
reqwest = { version = "0.12", default-features = false, features = ["rustls-tls"] }
mpris-server = "*"
cxx-qt = "*"
cxx-qt-lib = "*"
roon-sood = "*"
