[package]
name = "inheritx"
version = "0.1.0"
edition = "2021"
publish = false

[dependencies]
rust_decimal = "=1.43.0"
ring = "=0.17.14"
uuid = { version = "=1.29.0", features = ["v4", "serde"] }
serde = { version = "=1.0.229", features = ["derive"] }
serde_json = "=1.0.154"
chrono = { version = "=0.4.45", default-features = false, features = ["clock", "serde", "std"] }
tokio = { version = "=1.54.1", features = ["rt-multi-thread", "macros", "time", "sync", "net"] }
axum = "=0.7.9"
sqlx = { version = "=0.8.6", default-features = false, features = ["runtime-tokio", "postgres", "uuid", "chrono", "rust_decimal", "macros", "json"] }
reqwest = { version = "=0.12.28", default-features = false, features = ["json"] }
tracing = "=0.1.44"
anyhow = "=1.0.104"
dotenvy = "=0.15.7"
once_cell = "=1.21.4"
async-trait = "=0.1.92"
jsonwebtoken = "9"
tower_governor = "0.4"
