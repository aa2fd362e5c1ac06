[package]
name = "bibfetch"
version = "0.1.0"
edition = "2021"
publish = false

[dependencies]
serde_json = "=1.0.151"
sanitize-filename = "=0.6.0"
calamine = "=0.36.1"
anyhow = "=1.0.104"
clap = { version = "=4.6.7", features = ["derive"] }
console = "=0.16.6"
indicatif = "=0.18.6"
reqwest = { version = "=0.13.5", default-features = false, features = ["blocking", "query"] }
