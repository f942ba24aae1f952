[package]
name = "soundlore"
version = "0.1.0"
edition = "2021"
publish = false

[dependencies]
rand = "=0.10.3"
rustc-hash = "=2.1.3"
thiserror = "=2.0.21"
strum = { version = "=0.27.2", features = ["derive"] }
sea-query = "=1.0.2"
sea-query-sqlx = { version = "=0.9.1", features = ["sqlx-sqlite"] }
sqlx = { version = "=0.9.0", default-features = false, features = ["sqlite", "runtime-tokio", "macros"] }
tokio = { version = "=1.54.1", features = ["rt-multi-thread", "macros"] }
