[package]
name = "daedalus"
version = "0.1.0"
edition = "2021"
publish = false

[dependencies]
argon2 = "0.5"
actix-web = "4"
actix-session = { version = "0.10", features = ["cookie-session"] }
actix-identity = "0.8"
tera = { version = "1", default-features = false }
serde = { version = "1", features = ["derive"] }
serde_json = "1"
serde_with = "3"
tokio = { version = "1", features = ["rt", "macros"] }
tracing = "0.1"
tracing-subscriber = { version = "0.3", features = ["json"] }
tracing-actix-web = "0.7"
clap = { version = "4", features = ["derive"] }
config = { version = "0.14", default-features = false, features = ["toml"] }
console = "0.15"
rust-embed = { version = "8", features = ["mime-guess"] }
dotenvy = "0.15"
chrono = { version = "0.4", features = ["serde"] }
diesel = { version = "2", features = ["postgres", "r2d2", "chrono"] }
diesel_migrations = { version = "2", features = ["postgres"] }
