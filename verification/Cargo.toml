[package]
name = "catalog_sync"
version = "0.1.0"
edition = "2021"
publish = false

[dependencies]
actix-cors = "*"
actix-rt = "2"
actix-web = "4"
futures = "0.3"
meilisearch-sdk = "*"
mongodb = "*"
reqwest = { version = "*", default-features = false, features = ["json", "rustls-tls"] }
serde = { version = "1", features = ["derive"] }
