[package]
name = "api"
version = "0.1.0"
edition = "2021"
publish = false

[dependencies]
actix-cors = "=0.7.2"
actix-web = { version = "=4.18.1", default-features = false, features = ["macros"] }
argon2 = "=0.5.3"
chrono = { version = "=0.4.45", features = ["serde"] }
colored = "=2.2.0"
dotenv = "=0.15.0"
env_logger = "=0.11.11"
futures = "=0.3.34"
log = "=0.4.34"
oauth2 = { version = "=4.4.2", default-features = false }
octocrab = "0.41"
pin-project-lite = "=0.2.17"
rand = "=0.8.8"
regex = "=1.13.1"
reqwest = { version = "=0.11.27", default-features = false, features = ["json"] }
rusty_paseto = "=0.10.1"
serde = { version = "=1.0.229", features = ["derive"] }
serde_json = "=1.0.154"
sqlx = { version = "=0.8.6", default-features = false, features = ["runtime-tokio", "postgres", "uuid", "chrono", "macros", "json"] }
thiserror = "=1.0.69"
time = { version = "=0.3.55", features = ["formatting"] }
uuid = { version = "=1.29.0", features = ["v4", "serde"] }
validator = "=0.16.1"
validator_derive = "=0.16.0"
