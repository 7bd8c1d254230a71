[package]
name = "seemycity_backend"
version = "0.1.0"
edition = "2021"
publish = false

[dependencies]
actix-web = { version = "*", default-features = false, features = ["macros"] }
actix-cors = "*"
reqwest = { version = "*", default-features = false, features = ["json"] }
serde = { version = "*", features = ["derive"] }
serde_json = "*"
sqlx = { version = "*", default-features = false, features = ["postgres", "runtime-tokio", "macros", "chrono", "uuid", "rust_decimal"] }
tokio = { version = "*", features = ["macros", "rt-multi-thread"] }
thiserror = "*"
chrono = { version = "*", default-features = false, features = ["clock", "serde"] }
uuid = { version = "*", features = ["v4", "serde"] }
geojson = "*"
rust_decimal = "*"
rust_decimal_macros = "*"
log = "*"
env_logger = "*"
dotenvy = "*"
