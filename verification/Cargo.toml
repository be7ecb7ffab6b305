[package]
name = "mtls_probe"
version = "0.1.0"
edition = "2021"
publish = false

[dependencies]
reqwest = { version = "*", default-features = false, features = ["blocking", "native-tls"] }
serde = { version = "*", features = ["derive"] }
serde_json = "*"
