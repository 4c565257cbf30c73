[package]
name = "web_scaffold"
version = "0.1.0"
edition = "2021"
publish = false

[dependencies]
anyhow = "*"
axum = "*"
axum-htmx = "*"
axum-prometheus = "*"
clap = { version = "*", features = ["derive", "env"] }
include_dir = "*"
log = "*"
metrics-process = "*"
mime_guess = "*"
minijinja = "*"
tokio = { version = "*", features = ["full"] }
tower = "*"
tower-http = { version = "*", features = ["trace", "fs"] }
tracing = "*"
tracing-subscriber = { version = "*", features = ["env-filter"] }
