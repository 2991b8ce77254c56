[package]
name = "cosmic_bg"
version = "0.1.0"
edition = "2021"
publish = false

[dependencies]
anyhow = "1"
calloop = "0.10"
notify = "5"
ron = "0.8"
serde = { version = "1", features = ["derive"] }
xdg = "2.4"
xdg-user = "0.2"
