[package]
name = "rust_microservices"
version = "0.1.0"
edition = "2021"
publish = false

[dependencies]
argon2 = "=0.5.3"
base64 = "=0.22.1"
sha2 = "=0.10.9"
hex = "=0.4.3"
jsonwebtoken = "=9.3.1"
rand = "=0.8.8"
uuid = { version = "=1.29.0", features = ["v4"] }
chrono = { version = "=0.4.45", features = ["serde"] }
serde = { version = "=1.0.229", features = ["derive"] }
serde_json = { version = "=1.0.154", features = ["preserve_order"] }
actix-web = "=4.18.1"
actix-web-prom = "=0.10.0"
sqlx = { version = "=0.8.6", default-features = false, features = ["postgres", "runtime-tokio", "chrono", "macros"] }
redis = { version = "=1.8.1", features = ["tokio-comp", "connection-manager"] }
rdkafka = "=0.39.0"
tokio = { version = "=1.54.1", features = ["full"] }
utoipa = { version = "=5.5.0", features = ["actix_extras", "chrono"] }
dotenvy = "=0.15.7"
clap = { version = "=4.6.7", features = ["derive"] }
reqwest = { version = "=0.12.28", default-features = false, features = ["blocking", "json"] }
