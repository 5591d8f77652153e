[package]
name = "simple_server"
version = "0.1.0"
edition = "2021"
publish = false

[dependencies]
axum = { version = "*", default-features = false, features = ["tokio", "http1"] }
axum-server = { version = "*", features = ["tls-rustls"] }
clap = { version = "*", features = ["derive"] }
clap-verbosity-flag = { version = "*", features = ["tracing"] }
color-eyre = "*"
rcgen = "*"
tokio = { version = "*", features = ["full"] }
tracing = "*"
tracing-subscriber = "*"
webbrowser = "*"
