[package]
name = "catalog"
version = "0.1.0"
edition = "2021"
publish = false

[dependencies]
sqlx = { version = "*", default-features = false, features = ["sqlite", "runtime-tokio"] }
tokio = { version = "*", features = ["rt-multi-thread", "macros"] }
serde = { version = "*", features = ["derive"] }
toml = "*"
directories = "*"
