[package]
name = "door_access"
version = "0.1.0"
edition = "2021"
publish = false

[dependencies]
jsonwebtoken = { version = "=11.1.0", features = ["rust_crypto"] }
chrono = "=0.4.45"
uuid = { version = "=1.27.0", features = ["v4"] }
serde = { version = "*", features = ["derive"] }
serde_json = "=1.0.151"
rocket = { version = "*", features = ["secrets", "json"] }
rocket_dyn_templates = { version = "*", features = ["handlebars"] }
rocket_cors = "*"
sqlx = { version = "*", default-features = false, features = ["runtime-tokio", "postgres", "uuid", "chrono"] }
dotenvy = "*"
anyhow = "*"
