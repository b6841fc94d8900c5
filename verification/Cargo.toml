[package]
name = "site_recorder"
version = "0.1.0"
edition = "2021"
publish = false

[dependencies]
url = "*"
csv = "*"
chrono = "*"
clap = { version = "*", features = ["derive"] }
serde = { version = "*", features = ["derive"] }
serde_json = "*"
thiserror = "*"
anyhow = "*"
headless_chrome = "*"
scraper = "*"
indexmap = "*"
signal-hook = "*"
libc = "*"
indicatif = "*"
tokio = { version = "*", features = ["rt-multi-thread", "time", "sync", "macros"] }
