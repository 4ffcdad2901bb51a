[package]
name = "rst04_jwt"
version = "0.1.0"
edition = "2021"
publish = false

[dependencies]
actix-web = { version = "4", default-features = false, features = ["macros", "cookies"] }
argon2 = { version = "0.5", features = ["std"] }
chrono = { version = "0.4", default-features = false, features = ["clock", "std"] }
dotenv = "0.15"
env_logger = "0.10"
jsonwebtoken = "9"
log = "0.4"
regex = "1"
serde = { version = "1", features = ["derive"] }
serde_json = { version = "1", features = ["preserve_order"] }
sqlx = { version = "0.7", default-features = false, features = ["runtime-tokio", "mysql"] }
thiserror = "1"
validator = { version = "0.16", features = ["derive"] }
