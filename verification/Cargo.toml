[package]
name = "covenant_chain"
version = "0.1.0"
edition = "2021"

[dependencies]
bdk = { version = "0.28", features = ["electrum"] }
rusqlite = { version = "*", features = ["bundled"] }
confy = "*"
dirs = "*"
serde = { version = "*", features = ["derive"] }
