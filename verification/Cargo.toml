[package]
name = "rsm"
version = "0.1.0"
edition = "2021"
publish = false

[dependencies]
chrono = "0.4"
clap = { version = "4", features = ["cargo"] }
lazy_static = "1"
log = "0.4"
reqwest = { version = "*", default-features = false, features = ["blocking", "cookies"] }
serde = { version = "1", features = ["derive"] }
serde_json = "1"
serde_with = "*"
urlencoding = "2"
