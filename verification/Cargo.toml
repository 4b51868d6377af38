[package]
name = "sensor_registry"
version = "0.1.0"
edition = "2021"
publish = false

[dependencies]
actix-cors = "0.7"
actix-web = { version = "4", default-features = false, features = ["macros"] }
awc = { version = "3", default-features = false }
dotenv = "0.15"
env_logger = "0.11"
nanoid = "0.4"
redis = { version = "0.29", features = ["tokio-comp"] }
sea-orm = { version = "1.1", default-features = false, features = ["macros", "with-chrono", "with-json", "sqlx-postgres", "runtime-tokio"] }
serde = { version = "1", features = ["derive"] }
serde_json = "1"
