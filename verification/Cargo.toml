[package]
name = "video_parser"
version = "0.1.0"
edition = "2021"
publish = false

[dependencies]
serde_json = "*"
url = "*"
scraper = "*"
rand = "*"
serde = { version = "*", features = ["derive"] }
anyhow = "*"
async-trait = "*"
axum = "*"
tokio = { version = "*", features = ["rt-multi-thread", "macros", "net"] }
tower-http = { version = "*", features = ["cors"] }
tracing = "*"
tracing-subscriber = { version = "*", features = ["env-filter"] }
clap = { version = "*", features = ["derive"] }
chrono = "*"
reqwest = { version = "*", default-features = false, features = ["json", "rustls-tls"] }
