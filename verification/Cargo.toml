[package]
name = "appcontrol_repository"
version = "0.1.0"
edition = "2021"
publish = false

[dependencies]
sqlx = { version = "0.8", default-features = false, features = ["postgres", "sqlite", "runtime-tokio", "uuid", "chrono", "json"] }
uuid = { version = "1", features = ["v4"] }
chrono = { version = "0.4", default-features = false, features = ["clock", "std"] }
serde_json = "1"
sha2 = "0.10"
hex = "0.4"
async-trait = "0.1"
serde = { version = "1", features = ["derive"] }
tracing = "0.1"
