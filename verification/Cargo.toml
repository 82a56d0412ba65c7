[package]
name = "hubdash"
version = "0.1.0"
edition = "2021"
publish = false

[dependencies]
axum = "=0.8.9"
clap = { version = "=4.6.7", features = ["derive", "env"] }
maud = { version = "=0.27.0", features = ["axum"] }
tokio = { version = "=1.54.1", features = ["macros", "net", "rt-multi-thread"] }
tracing-subscriber = { version = "=0.3.23", features = ["env-filter"] }
url = "=2.5.8"
