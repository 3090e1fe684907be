[package]
name = "keentools_cloud"
version = "0.1.1"
edition = "2021"
publish = false

[dependencies]
anyhow = "1"
atty = "0.2"
clap = { version = "4", features = ["derive", "env"] }
colored = "2"
dirs = "5"
flate2 = "1"
futures-util = "0.3"
indicatif = "0.17"
reqwest = { version = "0.12", default-features = false, features = ["json", "stream", "rustls-tls", "gzip"] }
semver = "1"
serde = { version = "1", features = ["derive"] }
serde_json = "1"
tar = "0.4"
tokio = { version = "1", features = ["full"] }
toml = "0.8"
zip = { version = "2", default-features = false, features = ["deflate"] }
