[package]
name = "lichessdbfish"
version = "0.1.0"
edition = "2021"
publish = false

[dependencies]
rand = "*"
serde = "*"
serde_derive = "*"
serde_json = "*"
reqwest = { version = "*", default-features = false, features = ["blocking"] }
