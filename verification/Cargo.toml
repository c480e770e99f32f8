[package]
name = "chatcore"
version = "0.1.0"
edition = "2021"
publish = false

[dependencies]
chrono = "=0.4.45"
regex = "=1.13.1"
serde = { version = "*", features = ["derive"] }
serde_json = "*"
tokio = { version = "*", features = ["rt-multi-thread", "macros", "net", "sync", "time", "io-util", "io-std"] }
tokio-rustls = "*"
tokio-tungstenite = { version = "*", features = ["rustls-tls-webpki-roots"] }
futures-util = "*"
futures-channel = "*"
rustls-webpki = "*"
webpki-roots = "*"
crossterm = "*"
ratatui = "*"
copypasta = "*"
annotate-snippets = "*"
syn = { version = "*", features = ["full", "visit"] }
proc-macro2 = { version = "*", features = ["span-locations"] }
log = "*"
env_logger = "*"
