[package]
name = "podzol"
version = "0.1.0"
edition = "2021"
publish = false

[dependencies]
anyhow = "*"
async_zip = { version = "*", features = ["tokio", "deflate"] }
chrono = { version = "*", features = ["serde"] }
clap = { version = "*", features = ["derive"] }
futures-util = "*"
git2 = { version = "*", default-features = false }
glob = "*"
indicatif = "*"
inquire = "*"
reqwest = { version = "*", default-features = false, features = ["json", "rustls-tls"] }
rustls = "*"
rustls-platform-verifier = "*"
serde = { version = "*", features = ["derive"] }
serde_json = "*"
serde_with = "*"
tokio = { version = "*", features = ["full"] }
toml_edit = { version = "*", features = ["serde"] }
