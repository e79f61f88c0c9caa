[package]
name = "subscription_confirm"
version = "0.1.0"
edition = "2021"
publish = false

[dependencies]
actix-web = { version = "*", default-features = false }
anyhow = "*"
serde = { version = "*", features = ["derive"] }
sqlx = { version = "*", default-features = false, features = ["runtime-tokio", "postgres", "uuid"] }
thiserror = "*"
tracing = "*"
uuid = "*"
