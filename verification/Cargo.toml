[package]
name = "earr"
version = "0.1.0"
edition = "2021"
publish = false

[dependencies]
audiotags = "*"
chrono = { version = "0.4", default-features = false, features = ["std"] }
dotenvy = "0.15"
rayon = "1"
serde = { version = "1", features = ["derive"] }
serde_json = "1"
thiserror = "1"
walkdir = "2"
