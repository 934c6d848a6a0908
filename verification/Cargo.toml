[package]
name = "dlsite"
version = "0.1.0"
edition = "2021"
publish = false

[dependencies]
chrono = { version = "0.4", default-features = false, features = ["std"] }
regex = "1"
scraper = "*"
serde_json = { version = "1", features = ["preserve_order"] }
url = "2"
reqwest = { version = "0.12", default-features = false }
tokio = { version = "1", features = ["macros", "rt-multi-thread"] }
thiserror = "1"
