[package]
name = "taurus"
version = "0.1.0"
edition = "2021"
publish = false

[dependencies]
anyhow = "1"
clap = "4"
native-tls = "0.2"
serde = { version = "1", features = ["derive"] }
thiserror = "1"
toml = "0.8"
url = "2"
