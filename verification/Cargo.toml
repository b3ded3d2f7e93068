[package]
name = "wordser"
version = "0.1.0"
edition = "2021"
publish = false

[dependencies]
serde_json = "1"
serde = { version = "1", features = ["derive"] }
axum = "*"
tokio = { version = "1", features = ["macros", "rt-multi-thread", "signal", "net"] }
reqwest = { version = "*", default-features = false, features = ["json", "rustls-tls"] }
dotenv = "*"
