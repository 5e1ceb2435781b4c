[package]
name = "panorama_mail"
version = "0.1.0"
edition = "2021"
publish = false

[dependencies]
mail-parser = "=0.11.9"
lettre = { version = "=0.11.23", default-features = false, features = ["builder", "smtp-transport", "tokio1"] }
serde = { version = "=1.0.229", features = ["derive"] }
serde_json = "=1.0.154"
chrono = "=0.4.45"
async-imap = { version = "=0.12.0", default-features = false, features = ["runtime-tokio"] }
tokio = { version = "=1.54.1", features = ["full"] }
futures = "=0.3.34"
axum = "=0.8.9"
tower-http = { version = "=0.7.1", features = ["trace"] }
tracing = "=0.1.44"
tracing-subscriber = "=0.3.23"
clap = { version = "=4.6.7", features = ["derive"] }
dotenvy = "=0.15.7"
sqlx = { version = "=0.9.0", default-features = false, features = ["sqlite", "runtime-tokio"] }
tantivy = { version = "=0.27.0", default-features = false, features = ["mmap", "lz4-compression"] }
async-trait = "=0.1.92"
