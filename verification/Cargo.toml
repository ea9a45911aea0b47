[package]
name = "tradesalsa"
version = "0.1.0"
edition = "2021"
publish = false

[dependencies]
anyhow = "1"
axum = "0.7"
axum-login = "0.15"
axum-messages = "0.6"
config = { version = "0.14", default-features = false, features = ["yaml"] }
dotenv = "0.15"
grass = { version = "0.13", default-features = false }
lettre = { version = "0.11", default-features = false, features = ["builder", "smtp-transport"] }
password-auth = "1"
rand = "0.8"
secrecy = { version = "0.8", features = ["serde"] }
serde = { version = "1", features = ["derive"] }
serde-aux = "4"
serde_json = "1"
sqlx = { version = "0.7", default-features = false, features = ["runtime-tokio", "postgres", "uuid", "time"] }
tera = { version = "1", default-features = false }
time = "0.3"
tokio = { version = "1", features = ["macros", "rt-multi-thread", "signal", "net"] }
tower-http = { version = "0.5", features = ["trace", "fs"] }
tower-sessions-sqlx-store = { version = "0.12", features = ["postgres"] }
tracing = { version = "0.1", features = ["log"] }
tracing-bunyan-formatter = "0.3"
tracing-log = "0.2"
tracing-subscriber = { version = "0.3", features = ["registry", "env-filter"] }
uuid = { version = "1", features = ["v4", "serde"] }
validator = "0.16"
