[package]
name = "state_reconstruct"
version = "0.1.0"
edition = "2021"
publish = false

[dependencies]
anyhow = "1"
borsh = { version = "1", features = ["derive"] }
borsh-derive = "1"
ethereum-types = "=0.14.1"
ethers-core = { version = "=2.0.14", default-features = false }
hex = "=0.4.3"
reqwest = { version = "0.11", default-features = false, features = ["json", "rustls-tls"] }
revm = { version = "=14.0.3", default-features = false, features = ["std"] }
serde = { version = "1", features = ["derive"] }
serde_json = "1"
tokio = { version = "1", features = ["macros", "rt-multi-thread"] }
