[package]
name = "pbpk_sim"
version = "0.1.0"
edition = "2021"
publish = false

[dependencies]
diffsol = "*"
serde = { version = "*", features = ["derive"] }
serde_json = "*"
