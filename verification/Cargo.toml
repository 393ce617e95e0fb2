[package]
name = "dichonoia"
version = "0.1.0"
edition = "2021"
publish = false

[dependencies]
serde_json = "1"
time = { version = "0.3", features = ["parsing", "formatting"] }
chrono = "0.4"
thiserror = "2"
futures-util = "0.3"
tokio = { version = "1", features = ["rt-multi-thread", "macros", "net", "time", "sync"] }
tokio-tungstenite = { version = "0.26", features = ["rustls-tls-webpki-roots"] }
reqwest = { version = "0.12", default-features = false, features = ["rustls-tls"] }
