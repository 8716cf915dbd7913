[package]
name = "plex_rs"
version = "0.1.0"
edition = "2021"
publish = false

[dependencies]
url = "2"
serde = { version = "1", features = ["derive"] }
serde_json = "1"
quick-xml = { version = "*", features = ["serialize"] }
reqwest = { version = "0.12", default-features = false, features = ["json", "rustls-tls"] }
tokio = { version = "1", features = ["rt", "time", "macros", "net", "sync"] }
futures-util = "0.3"
thiserror = "2"
http = "1"
bytes = "1"
chrono = { version = "0.4", default-features = false, features = ["std", "clock"] }
tracing = "0.1"
tokio-tungstenite = "*"
