[package]
name = "bridge_core"
version = "0.1.0"
edition = "2021"
publish = false

[dependencies]
sha2 = "*"
chrono = "*"
tokio = { version = "*", default-features = false, features = ["sync"] }
ethers-core = "*"
hex = "*"
clap = { version = "*", features = ["derive"] }

[dev-dependencies]
k256 = "*"
