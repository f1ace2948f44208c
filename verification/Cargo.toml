[package]
name = "storage_dal"
version = "0.1.0"
edition = "2021"
publish = false

[dependencies]
bincode = "=1.3.3"
opendal = { version = "=0.45.1", default-features = false, features = ["rustls", "services-memory", "services-moka", "services-redb", "services-s3", "services-sled"] }
serde = { version = "=1.0.229", features = ["derive"] }
