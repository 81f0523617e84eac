[package]
name = "actix-contrib-rest"
version = "0.1.0"
edition = "2021"
publish = false

[dependencies]
actix-http = { version = "3", default-features = false }
actix-web = { version = "4", default-features = false }
actix-web-validator = "5"
anyhow = "1"
awc = { version = "3", default-features = false }
futures-core = "0.3"
log = "0.4"
serde = { version = "1", features = ["derive"] }
server-env-config = "*"
sqlx = { version = "0.7", default-features = false, features = ["postgres", "runtime-tokio"] }
thiserror = "1"
validator = { version = "0.16", features = ["derive"] }
