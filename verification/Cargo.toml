[package]
name = "dwarfer"
version = "0.1.0"
edition = "2021"
publish = false

[dependencies]
regex = "1"
nanoid = "0.4"
chrono = { version = "0.4", features = ["serde"] }
serde = { version = "1", features = ["derive"] }
serde_json = "1"
toml = "0.8"
anyhow = "1"
thiserror = "1"
tokio = { version = "1", features = ["rt-multi-thread", "macros"] }
axum = "0.6"
clap = { version = "4", features = ["derive"] }
sqlx = { version = "0.7", default-features = false, features = ["sqlite", "runtime-tokio"] }
config = { version = "0.13", default-features = false, features = ["toml"] }
