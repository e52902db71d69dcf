[package]
name = "substrate_api_explorer"
version = "0.1.0"
edition = "2021"
publish = false

[dependencies]
tokio = { version = "*", default-features = false, features = ["sync", "rt-multi-thread"] }
url = "*"
serde = { version = "*", features = ["derive"] }
scale-info = "*"
subxt = "*"
