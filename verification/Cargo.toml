[package]
name = "missioncontrol_store"
version = "0.1.0"
edition = "2021"
publish = false

[dependencies]
serde = { version = "*", features = ["derive"] }
sqlx = { version = "*", default-features = false, features = ["sqlite", "runtime-tokio", "macros"] }
tokio = { version = "*", features = ["rt", "macros", "time", "sync"] }
