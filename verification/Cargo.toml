[package]
name = "aerodb"
version = "0.1.0"
edition = "2021"
publish = false

[dependencies]
crc32fast = "1"
hex = "0.4"
hmac = "0.12"
sha1 = "0.10"
sha2 = "0.10"
rand = "0.8"
uuid = { version = "1", features = ["v4"] }
urlencoding = "2"
chrono = { version = "0.4", features = ["serde"] }
serde = { version = "1", features = ["derive"] }
serde_json = "1"
serde_yaml = "0.9"
clap = { version = "4", features = ["derive"] }
tar = "0.4"
thiserror = "1"
whoami = "1"
tokio = { version = "1", features = ["rt-multi-thread", "macros", "net"] }
axum = "0.7"
reqwest = { version = "0.11", default-features = false }

[dev-dependencies]
tempfile = "3"
