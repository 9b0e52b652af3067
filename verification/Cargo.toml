[package]
name = "qwiz"
version = "0.1.0"
edition = "2021"
publish = false

[dependencies]
sha2 = "0.10"
hex = "0.4"
rand = "0.8"
base64 = "0.21"
uuid = { version = "1", features = ["v4", "serde"] }
serde = { version = "1", features = ["derive"] }
sqlx = { version = "0.7", features = ["runtime-tokio", "postgres", "chrono", "uuid", "macros"] }
tokio = { version = "1", features = ["sync", "macros", "rt-multi-thread"] }
rocket = { version = "0.5", features = ["json"] }
dotenv = "0.15"
lazy_static = "1"
async_once = "0.2"
