[package]
name = "pixelletter"
version = "0.1.0"
edition = "2021"
publish = false

[dependencies]
anyhow = "=1.0.104"
bon = "=3.10.3"
isocountry = "=0.3.2"
quick-xml = "=0.42.0"
reqwest = { version = "=0.12.28", features = ["multipart"] }
thiserror = "=1.0.69"

[dev-dependencies]
quick-xml = { version = "=0.42.0", features = ["serialize"] }
serde = "=1.0.229"
