[package]
name = "tg"
version = "0.1.0"
edition = "2021"
publish = false

[dependencies]
unicode-width = "0.2"
chrono = "0.4"
serde = { version = "1", features = ["derive"] }
serde_json = "1"
colored = "3"
clap = { version = "4", features = ["derive"] }
tokio = { version = "1", features = ["full"] }
tdlib-rs = "1"
reqwest = { version = "0.12", default-features = false, features = ["json", "rustls-tls"] }
comfy-table = "7"
terminal_size = "0.4"
dirs = "6"
async-trait = "0.1"
thiserror = "2"
