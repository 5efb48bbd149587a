[package]
name = "user_directory"
version = "0.1.0"
edition = "2021"
publish = false

[dependencies]
actix-web = "4"
dotenv = "0.15"
serde_json = "1"
sqlx = { version = "*", default-features = false, features = ["postgres", "runtime-tokio"] }
