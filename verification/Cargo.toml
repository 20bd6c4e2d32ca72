[package]
name = "calamp_rs"
version = "0.1.0"
edition = "2021"
publish = false

[dependencies]
nom = "7"
serde = { version = "1", features = ["derive"] }
chrono = { version = "0.4", default-features = false }

[dev-dependencies]
approx = "0.5"
