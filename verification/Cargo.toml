[package]
name = "iono"
version = "0.1.0"
edition = "2021"
publish = false

[dependencies]
actix-governor = "=0.8.0"
actix-multipart = "=0.7.2"
actix-web = "=4.18.1"
actix-web-httpauth = "=0.8.3"
chrono = "=0.4.45"
dotenvy = "=0.15.7"
humansize = "=2.1.3"
maud = "=0.26.0"
percent-encoding = "=2.3.2"
secrecy = "=0.10.3"
serde = { version = "=1.0.229", features = ["derive"] }
serde_json = "=1.0.154"
sqlx = { version = "=0.8.6", default-features = false, features = ["postgres", "runtime-tokio", "chrono", "json", "macros"] }
subtle = "=2.6.1"
tokio = { version = "=1.54.1", features = ["rt-multi-thread", "macros"] }
tracing = "=0.1.44"
tracing-actix-web = "=0.7.25"
tracing-subscriber = { version = "=0.3.23", features = ["env-filter"] }
utoipa = "=5.5.0"
uuid = { version = "=1.29.0", features = ["v4"] }
validator = { version = "=0.20.0", features = ["derive"] }
webauthn-rs = { version = "0.5", features = ["danger-allow-state-serialisation"] }
