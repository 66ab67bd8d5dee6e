[package]
name = "user_auth"
version = "0.1.0"
edition = "2021"
publish = false

[dependencies]
actix-web = { version = "4", default-features = false, features = ["cookies"] }
argon2 = { version = "0.5", features = ["std"] }
getrandom = "0.2"
serde = { version = "1", features = ["derive"] }
tracing = "0.1"
