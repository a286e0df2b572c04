[package]
name = "watchdog"
version = "0.1.0"
edition = "2021"
publish = false

[dependencies]
serde = { version = "=1.0.229", features = ["derive"] }
serde_json = "=1.0.154"
actix = "=0.13.5"
actix-web = { version = "=4.18.1", default-features = false, features = ["macros"] }
tokio = { version = "=1.54.1", features = ["full"] }
async-trait = "=0.1.92"
futures = "=0.3.34"
lettre = { version = "=0.11.23", default-features = false, features = ["builder", "smtp-transport", "tokio1", "tokio1-rustls-tls"] }
tracing = "=0.1.44"
tracing-subscriber = "=0.3.23"
dotenv = "=0.15.0"
thiserror = "=1.0.69"
