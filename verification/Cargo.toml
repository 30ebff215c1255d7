[package]
name = "abyss_singularity"
version = "0.1.0"
edition = "2021"
publish = false

[dependencies]
sha2 = "0.10"
hex = "0.4"
chrono = { version = "0.4", default-features = false, features = ["std"] }
anyhow = "1"
log = "0.4"
serde = { version = "1", features = ["derive"] }
serde_json = "1"
tokio = { version = "1", features = ["full"] }
futures = "0.3"
reqwest = { version = "0.12", default-features = false, features = ["json", "stream", "rustls-tls"] }
walkdir = "2"
zip = { version = "2", default-features = false, features = ["deflate"] }
sevenz-rust2 = "*"
