[package]
name = "digital_server"
version = "0.1.0"
edition = "2021"
publish = false

[dependencies]
indexmap = "=2.14.2"
time = { version = "=0.3.55", features = ["formatting"] }
serde = { version = "=1.0.229", features = ["derive"] }
figment = { version = "=0.10.19", features = ["yaml", "env"] }
secrecy = { version = "=0.10.3", features = ["serde"] }
tracing = "=0.1.44"
tracing-subscriber = "=0.3.23"
tokio = { version = "=1.54.1", features = ["macros", "rt-multi-thread", "net"] }
axum = "=0.7.9"
tower = "=0.5.3"
tower-http = { version = "=0.6.11", features = ["cors", "trace"] }
teloxide = { version = "=0.13.0", default-features = false, features = ["macros", "webhooks-axum", "rustls", "ctrlc_handler"] }
takecell = "=0.1.1"
sqlx = { version = "=0.8.6", default-features = false, features = ["postgres", "runtime-tokio", "migrate", "time", "macros"] }
async-openai = { version = "=0.24.1", default-features = false, features = ["rustls"] }
aws-sdk-s3 = { version = "=1.157.0", default-features = false, features = ["rt-tokio", "behavior-version-latest"] }
anyhow = "=1.0.104"
thiserror = "=1.0.69"
uuid = { version = "=1.29.0", features = ["v4"] }
utoipa = "=4.2.3"
url = "=2.5.8"
