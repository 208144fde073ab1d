[package]
name = "cvmfs_server_scraper"
version = "0.1.0"
edition = "2021"
publish = false

[dependencies]
chrono = { version = "0.4", default-features = false, features = ["std"] }
futures = "0.3"
lazy_static = "1"
log = "0.4"
reqwest = { version = "0.12", default-features = false }
semver = "1"
serde = { version = "1", features = ["derive"] }
serde_json = "1"
thiserror = "1"
