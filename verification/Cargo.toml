[package]
name = "patidar_auth"
version = "0.1.0"
edition = "2021"
publish = false

[dependencies]
actix-web = "4"
actix-cors = "0.7"
argon2 = "0.5"
async-trait = "0.1"
chrono = { version = "0.4", default-features = false, features = ["clock", "serde"] }
config = { version = "0.14", default-features = false }
dotenvy = "0.15"
env_logger = "0.11"
jsonwebtoken = "9"
sea-orm = { version = "1", default-features = false, features = ["macros", "with-json", "with-chrono", "with-uuid", "sqlx-postgres", "runtime-tokio-rustls"] }
sea-orm-migration = { version = "1", default-features = false, features = ["sqlx-postgres", "runtime-tokio-rustls"] }
sea-query = "0.32"
serde = { version = "1", features = ["derive"] }
serde_json = { version = "1", features = ["raw_value"] }
uuid = { version = "1", features = ["serde", "v4"] }
