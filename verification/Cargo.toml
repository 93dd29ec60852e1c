[package]
name = "reddit_scraper"
version = "0.1.0"
edition = "2021"
publish = false

[dependencies]
rand = "0.8"
sentiment = "*"
serde = { version = "1", features = ["derive"] }
serde_json = "1"
thiserror = "1"
rusqlite = { version = "0.31", features = ["bundled"] }
amiquip = { version = "0.4", default-features = false }
reqwest = { version = "0.12", default-features = false, features = ["json", "rustls-tls"] }
tokio = { version = "1", features = ["macros", "rt-multi-thread", "time"] }
rocket = "0.5"
rocket_cors = "0.6"
prometheus = "0.13"
