[package]
name = "cat_launcher"
version = "0.1.0"
edition = "2021"
publish = false

[dependencies]
urlencoding = "2"
serde = { version = "1", features = ["derive"] }
serde_json = "1"
thiserror = "2"
tokio = { version = "1", features = ["fs", "process", "io-util", "rt", "rt-multi-thread", "macros", "sync", "time"] }
reqwest = { version = "0.12", default-features = false, features = ["json", "rustls-tls"] }
url = "2"
zip = { version = "2", default-features = false, features = ["deflate"] }
tar = "0.4"
flate2 = "1"
chrono = { version = "0.4", features = ["serde"] }
async-trait = "0.1"
r2d2 = "0.8"
r2d2_sqlite = { version = "*", features = ["bundled"] }
downloader = { version = "*", default-features = false }
