[package]
name = "difftastic_api"
version = "0.1.0"
edition = "2021"
publish = false

[dependencies]
humansize = "2"
serde = { version = "1", features = ["derive"] }
serde_json = "1"
axum = "0.8"
tokio = { version = "1", features = ["rt-multi-thread", "net"] }
tower-http = { version = "0.6", features = ["cors"] }
libc = "0.2"
owo-colors = "4"
