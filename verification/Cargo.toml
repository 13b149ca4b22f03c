[package]
name = "htmlfeed"
version = "0.1.0"
edition = "2021"
publish = false

[dependencies]
scraper = "*"
uuid = { version = "*", features = ["v5"] }
chrono = "*"
atom_syndication = "*"
serde = { version = "*", features = ["derive"] }
serde_json = "*"
actix-web = "*"
awc = "*"
