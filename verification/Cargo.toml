[package]
name = "librocketbase"
version = "0.1.0"
edition = "2021"
publish = false

[dependencies]
anyhow = "1"
axum = "0.6"
color-eyre = "0.6"
http = "0.2"
hyper = { version = "0.14", features = ["full"] }
include_dir = "0.7"
mime_guess = "2"
routerify = "3"
serde = { version = "1", features = ["derive"] }
serde_json = "1"
sqlx = { version = "0.6", features = ["postgres", "runtime-tokio-rustls", "uuid", "chrono"] }
thiserror = "1"
tokio = { version = "1", features = ["full"] }
tracing-error = "0.2"
tracing-subscriber = { version = "0.3", features = ["env-filter"] }
uuid = { version = "1", features = ["v4", "serde"] }

[dev-dependencies]
chrono = "0.4"
