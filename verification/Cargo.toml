[package]
name = "nioca_client"
version = "0.1.0"
edition = "2021"
publish = false

[dependencies]
hex = "*"
der = { version = "*", features = ["alloc", "pem"] }
ssh-key = "*"
ring = "*"
serde = { version = "*", features = ["derive"] }
serde_json = "*"
tokio = { version = "*", features = ["rt", "rt-multi-thread", "macros", "time", "sync", "fs", "signal"] }
reqwest = { version = "*", default-features = false, features = ["json", "rustls-tls"] }
