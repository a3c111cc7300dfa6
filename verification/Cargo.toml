[package]
name = "whoshome"
version = "0.1.0"
edition = "2021"
publish = false

[dependencies]
netrc-rs = "*"
serde = { version = "*", features = ["derive"] }
serde_json = "*"
serde_dhall = "*"
clap = { version = "*", features = ["derive"] }
home = "*"
anyhow = "*"
reqwest = { version = "*", default-features = false, features = ["blocking", "cookies", "json", "rustls-tls"] }
