[package]
name = "pedidos_rust"
version = "0.1.0"
edition = "2021"
publish = false

[dependencies]
actix = "0.13"
tokio = { version = "1", features = ["full"] }
serde = { version = "1", features = ["derive"] }
serde_json = "1"
serde_with = "3"
rand = "0.8"
colored = "2"
uuid = { version = "1", features = ["v4"] }
