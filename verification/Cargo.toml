[package]
name = "rustbuster"
version = "0.1.0"
edition = "2021"
publish = false

[dependencies]
clap = { version = "*", features = ["derive"] }
colored = "*"
indicatif = "*"
rayon = "*"
reqwest = { version = "*", default-features = false, features = ["blocking"] }
