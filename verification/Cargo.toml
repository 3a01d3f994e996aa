[package]
name = "ragent"
version = "0.1.0"
edition = "2021"
publish = false

[dependencies]
anyhow = "1"
dotenvy = "0.15"
glob = "0.3"
reqwest = { version = "0.12", default-features = false, features = ["json", "rustls-tls"] }
rustyline = "14"
serde = { version = "1", features = ["derive"] }
serde_json = "1"
thiserror = "1"
tokio = { version = "1", features = ["macros", "rt-multi-thread"] }
walkdir = "2"
