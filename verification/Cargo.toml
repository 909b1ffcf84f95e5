[package]
name = "c3hal"
version = "0.1.0"
edition = "2021"
publish = false

[dependencies]
esp32c3 = "=0.34.0"
embedded-hal = { version = "0.2.7", features = ["unproven"] }
