[package]
name = "sifis-api"
version = "0.1.0"
edition = "2021"
publish = false

[dependencies]
futures = "*"
nix = { version = "*", features = ["socket"] }
reedline-repl-rs = { version = "*", features = ["async"] }
serde = { version = "*", features = ["derive"] }
tarpc = { version = "*", features = ["full"] }
thiserror = "*"
tokio = { version = "*", features = ["full"] }
toml = "*"
tracing = "*"
tracing-subscriber = "*"
