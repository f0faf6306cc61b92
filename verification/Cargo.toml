[package]
name = "ble_link"
version = "0.1.0"
edition = "2021"
publish = false

[dependencies]
defmt = "*"
serde = { version = "1", features = ["derive"] }
