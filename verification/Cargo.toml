[package]
name = "bitcoin_node_handshake"
version = "0.1.0"
edition = "2021"
publish = false

[dependencies]
bitcoin = "0.29"
tokio = { version = "1", features = ["full"] }
