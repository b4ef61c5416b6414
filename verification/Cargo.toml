[package]
name = "invoicy"
version = "0.1.0"
edition = "2021"
publish = false

[dependencies]
base64 = "0.22"
chrono = "0.4"
clap = { version = "4", features = ["derive"] }
dirs = "6"
openssl = "0.10"
reqwest = { version = "0.12", default-features = false, features = ["blocking", "native-tls"] }
roxmltree = "0.20"
schemars = "1"
serde = { version = "1", features = ["derive"] }
serde_json = "1"
thiserror = "2"
toml = "0.8"
typst = "0.13"
typst-pdf = "0.13"
