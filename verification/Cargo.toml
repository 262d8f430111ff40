[package]
name = "nbx-api"
version = "0.1.0"
edition = "2021"
publish = false

[dependencies]
base64 = "0.21"
hmac = "0.12"
sha2 = "0.10"
rand = "0.8"
serde = { version = "1", features = ["derive"] }
serde_json = "1"
reqwest = { version = "0.11", default-features = false, features = ["json", "rustls-tls"] }
tokio = { version = "1", features = ["rt-multi-thread", "macros", "time", "sync", "net"] }
tokio-tungstenite = { version = "0.20", features = ["rustls-tls-webpki-roots"] }
futures = "0.3"
crossterm = "0.25"
tui = { version = "0.19", default-features = false, features = ["crossterm"] }
chrono = "0.4"
toml = "0.7"
anyhow = "1"
