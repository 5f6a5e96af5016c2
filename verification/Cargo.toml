[package]
name = "ferrisfetcher"
version = "0.1.0"
edition = "2021"
publish = false

[dependencies]
chrono = { version = "*", features = ["serde"] }
futures = "*"
reqwest = { version = "*", default-features = false, features = ["cookies"] }
scraper = "*"
serde = { version = "*", features = ["derive"] }
serde_json = "*"
thiserror = "*"
tokio = { version = "*", features = ["macros", "rt", "sync", "time"] }
tracing = "*"
url = "*"
