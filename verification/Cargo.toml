[package]
name = "axum_static"
version = "0.1.0"
edition = "2021"
publish = false

[dependencies]
axum = "0.8"
mime_guess = "2"
status_code = "*"
tower-http = { version = "0.6", features = ["fs"] }
tracing = "0.1"
