[package]
name = "ras"
version = "0.1.0"
edition = "2021"
publish = false

[dependencies]
libc = "*"
pdf-extract = "*"
reqwest = { version = "*", default-features = false, features = ["blocking", "json"] }
scraper = "*"
serde = { version = "*", features = ["derive"] }
serde_json = "*"
