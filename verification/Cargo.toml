[package]
name = "prex_core_challenge"
version = "0.1.0"
edition = "2021"
publish = false

[dependencies]
rust_decimal = "1"
chrono = { version = "0.4", features = ["serde"] }
serde = { version = "1", features = ["derive"] }
tokio = { version = "1", features = ["fs", "io-util", "rt-multi-thread", "macros"] }
actix-web = { version = "4", default-features = false, features = ["macros"] }
async-trait = "0.1"
log = "0.4"
env_logger = "0.11"
