[package]
name = "momo-bot"
version = "0.1.0"
edition = "2021"
publish = false

[dependencies]
rand = "=0.8.8"
base64 = "=0.22.1"
teloxide = { version = "=0.12.2", default-features = false, features = ["rustls", "ctrlc_handler"] }
takecell = "=0.1.1"
tokio = { version = "=1.54.1", features = ["macros", "rt-multi-thread", "sync", "time", "fs", "io-util"] }
reqwest = { version = "=0.11.27", default-features = false, features = ["json", "rustls-tls"] }
hyper = { version = "=0.14.32", features = ["server", "http1", "tcp"] }
serde = { version = "=1.0.229", features = ["derive"] }
serde_json = "=1.0.154"
tokio-rusqlite = "=0.5.1"
chrono = "=0.4.45"
log = "=0.4.35"
pretty_env_logger = "=0.5.0"
anyhow = "=1.0.104"
