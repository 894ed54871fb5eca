[package]
name = "synctv_core"
version = "0.1.0"
edition = "2021"
publish = false

[dependencies]
bytes = "1"
chrono = { version = "0.4", default-features = false, features = ["std", "clock", "serde"] }
rand = "0.9"
serde = { version = "1", features = ["derive"] }
serde_json = "1"
sqlx = { version = "0.8", default-features = false, features = ["runtime-tokio", "postgres", "chrono", "json", "macros"] }
url = "2"
