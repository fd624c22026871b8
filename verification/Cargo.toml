[package]
name = "food_tracker"
version = "0.1.0"
edition = "2021"
publish = false

[dependencies]
argon2 = "0.5"
async-trait = "0.1"
base64 = "0.22"
chrono = { version = "0.4", default-features = false }
password-hash = { version = "0.5", features = ["std"] }
serde = { version = "1", features = ["derive"] }
sqlx = { version = "0.8", default-features = false, features = ["mysql", "chrono", "runtime-tokio"] }
thiserror = "1"
uuid = { version = "1", features = ["v4"] }
