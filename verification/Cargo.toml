[package]
name = "az_analyze_image"
version = "0.1.0"
edition = "2021"
publish = false

[dependencies]
reqwest = { version = "0.12", default-features = false, features = ["json"] }
serde = { version = "1", features = ["derive"] }
subtle = "2"
thiserror = "1"
zeroize = "1"
