[package]
name = "fearless_nes"
version = "0.1.0"
edition = "2021"
publish = false

[dependencies]
bincode = { version = "2", features = ["derive"] }
roxmltree = "0.20"
serde = { version = "1", features = ["derive"] }
sha1 = "0.10"
thiserror = "1"
