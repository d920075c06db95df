[package]
name = "nft_resolver"
version = "0.1.0"
edition = "2021"
publish = false

[dependencies]
clap = { version = "3", features = ["derive"] }
cli-table = { version = "0.4", default-features = false }
colorize = "0.1"
image = "0.24"
reqwest = { version = "0.11", default-features = false, features = ["rustls-tls"] }
serde_json = "1"
tokio = { version = "1", features = ["macros", "rt-multi-thread"] }
viuer = "0.7"
