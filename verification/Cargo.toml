[package]
name = "inkshelf"
version = "0.1.0"
edition = "2021"
publish = false

[dependencies]
anyhow = "*"
chrono = "*"
png = "*"
reqwest = { version = "*", default-features = false, features = ["blocking", "cookies"] }
scraper = "*"
serde = { version = "*", features = ["derive"] }
url = "*"
