[package]
name = "cubex_launcher"
version = "0.1.0"
edition = "2021"
publish = false

[dependencies]
md5 = "0.7"
sha1 = "0.10"
hex = "0.4"
serde = { version = "1", features = ["derive"] }
serde_json = "1"
anyhow = "1"
futures = "0.3"
rayon = "1"
tokio = { version = "1", features = ["rt-multi-thread", "macros", "fs", "time", "io-util", "sync"] }
reqwest = { version = "0.12", default-features = false, features = ["json", "rustls-tls", "stream"] }
zip = { version = "2", default-features = false, features = ["deflate"] }
