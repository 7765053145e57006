[package]
name = "rusty_hue"
version = "0.4.0"
edition = "2021"
publish = false

[dependencies]
clap = "4"
curl = "0.4"
reqwest = { version = "0.12", features = ["blocking"] }
serde = { version = "1", features = ["derive"] }
serde_json = "1"
