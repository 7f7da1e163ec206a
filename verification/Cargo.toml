[package]
name = "pg_range"
version = "0.1.0"
edition = "2021"
publish = false

[dependencies]
sqlx = { version = "0.7", default-features = false, features = ["postgres"] }
serde = { version = "1", features = ["derive"] }

[dev-dependencies]
serde_json = "1"
