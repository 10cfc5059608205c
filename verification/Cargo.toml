[package]
name = "rrtypes"
version = "0.1.0"
edition = "2021"
publish = false

[dependencies]
bitflags = { version = "=2.13.2", features = ["serde"] }
reqwest = { version = "=0.13.5", default-features = false }
scraper = "=0.29.0"
serde = { version = "=1.0.229", features = ["derive"] }
serde_json = "=1.0.154"
thiserror = "=2.0.21"
url = "=2.5.8"

[dev-dependencies]
tokio = { version = "=1.54.1", features = ["rt", "net", "time", "io-util"] }
