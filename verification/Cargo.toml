[package]
name = "sadmadbotlad"
version = "0.1.0"
edition = "2021"
publish = false

[dependencies]
urlencoding = "=2.1.3"
html-escape = "=0.2.15"
chrono = { version = "=0.4.45", features = ["serde"] }
serde = { version = "=1.0.229", features = ["derive"] }
serde_json = "=1.0.154"
tokio = { version = "=1.54.1", features = ["full"] }
tokio-tungstenite = { version = "=0.30.0", features = ["rustls-tls-webpki-roots"] }
futures-util = "=0.3.34"
reqwest = { version = "=0.12.28", default-features = false, features = ["json", "rustls-tls"] }
eyre = "=0.6.14"
thiserror = "=2.0.21"
toml = "=1.1.8"
libmpv = "=2.0.1"
rusqlite = { version = "=0.41.1", features = ["bundled"] }
notify = "=8.2.1"
hebi = "=0.4.0"
obws = { version = "*", features = ["events"] }
