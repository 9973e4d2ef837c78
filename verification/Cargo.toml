[package]
name = "wfinfo"
version = "0.1.0"
edition = "2021"
publish = false

[dependencies]
levenshtein = "1"
serde = { version = "1", features = ["derive"] }
serde_json = "1"
serde_yaml = "0.9"
serde-aux = "4"
global-hotkey = "*"
dirs = "*"
reqwest = { version = "0.12", default-features = false, features = ["blocking", "rustls-tls"] }
clap = { version = "4", features = ["derive"] }
log = "0.4"
env_logger = "*"
anyhow = "1"
thiserror = "*"
chrono = "0.4"
indexmap = { version = "2", features = ["serde"] }
notify = "*"
image = { version = "0.25", default-features = false, features = ["png"] }
