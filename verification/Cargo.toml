[package]
name = "githubfetch"
version = "0.1.0"
edition = "2021"
publish = false

[dependencies]
colored = "*"
reqwest = { version = "*", default-features = false, features = ["blocking", "json", "rustls-tls"] }
serde = { version = "*", features = ["derive"] }
