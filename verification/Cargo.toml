[package]
name = "feather"
version = "0.1.0"
edition = "2021"
publish = false

[dependencies]
anyhow = "1"
clap = { version = "4", features = ["derive", "env"] }
flate2 = "1"
indicatif = "0.17"
nix = { version = "0.29", features = ["user", "fs"] }
reqwest = { version = "0.12", default-features = false, features = ["blocking", "json", "rustls-tls"] }
rustc-hash = "2"
serde = { version = "1", features = ["derive"] }
serde_json = "1"
tar = "0.4"
tempfile = "3"
tokio = { version = "1", features = ["fs", "io-util", "process", "rt"] }
tracing = "0.1"
tracing-subscriber = { version = "0.3", features = ["chrono", "env-filter"] }
versions = { version = "*", features = ["serde"] }
which = "*"
zip = { version = "2", default-features = false, features = ["deflate"] }
