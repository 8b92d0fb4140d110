[package]
name = "zome_delivery"
version = "0.1.0"
edition = "2021"
publish = false

[dependencies]
hdk = "*"
serde = { version = "1", features = ["derive"] }
bincode = "1"
