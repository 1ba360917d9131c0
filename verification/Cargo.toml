[package]
name = "server_dispatch"
version = "0.1.0"
edition = "2021"
publish = false

[dependencies]
http = "1"
axum = "0.7"
server_fn = { version = "0.7", features = ["axum"] }
tokio = { version = "1", features = ["rt"] }
futures-util = "0.3"
once_cell = "1"
parking_lot = "0.12"
