[package]
name = "app_catalog"
version = "0.1.0"
edition = "2021"
publish = false

[dependencies]
actix-cors = "*"
actix-web = "*"
chrono = "*"
dotenvy = "*"
env_logger = "*"
futures = "*"
log = "*"
mongodb = "*"
serde = { version = "*", features = ["derive"] }
utoipa = { version = "*", features = ["actix_extras"] }
utoipa-swagger-ui = { version = "*", features = ["actix-web", "vendored"] }
