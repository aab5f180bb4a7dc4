[package]
name = "lettermint"
version = "0.3.0"
edition = "2021"
publish = false

[dependencies]
bon = "3"
bytes = "1"
http = "1"
reqwest = { version = "0.12", default-features = false }
secrecy = "0.10"
serde = { version = "1", features = ["derive"] }
thiserror = "2"
tracing = "0.1"

[dev-dependencies]
serde_json = "1"
