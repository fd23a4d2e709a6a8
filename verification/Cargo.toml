[package]
name = "sidecar"
version = "0.1.0"
edition = "2021"
publish = false

[dependencies]
portpicker = "*"
reqwest = { version = "*", default-features = false, features = ["blocking"] }
chrono = "*"
