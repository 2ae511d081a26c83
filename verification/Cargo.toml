[package]
name = "zero2prod_axum"
version = "0.1.0"
edition = "2021"
publish = false

[dependencies]
anyhow = "1"
argon2 = "=0.5.3"
axum = "0.7"
base64 = "=0.22.1"
chrono = { version = "=0.4.45", default-features = false, features = ["clock"] }
clap = { version = "4", features = ["derive"] }
hmac = "=0.12.1"
htmlescape = "0.3"
rand = "=0.8.8"
reqwest = { version = "0.12", default-features = false, features = ["json"] }
secrecy = { version = "=0.8.0", features = ["serde"] }
serde = { version = "1", features = ["derive"] }
sha2 = "=0.10.9"
sqlx = { version = "0.8", default-features = false, features = ["runtime-tokio", "sqlite", "uuid"] }
thiserror = "1"
tokio = { version = "1", features = ["macros", "net", "rt-multi-thread"] }
toml = "0.8"
tower-http = { version = "0.5", features = ["trace"] }
tracing = "0.1"
tracing-bunyan-formatter = "0.3"
tracing-log = "0.2"
tracing-subscriber = { version = "0.3", features = ["env-filter"] }
unicode-segmentation = "=1.13.3"
urlencoding = "=2.1.3"
uuid = { version = "=1.27.0", features = ["v4"] }
validator = "=0.18.1"

[dev-dependencies]
hex = "0.4"
