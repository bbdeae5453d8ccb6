[package]
name = "block_core"
version = "0.1.0"
edition = "2021"
publish = false

[dependencies]
serde_json = "1"
bigdecimal = "0.3"
sqlx = { version = "0.7", default-features = false, features = ["postgres", "runtime-tokio"] }
